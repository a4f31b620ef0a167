//! Keyboard input: which key moves which paddle, and when the game quits.
use vstd::prelude::*;
use crate::game::Game;
use crate::paddle::{Direction, Player};

verus! {

/// The keys the game listens to; every other key is `Other`.
#[derive(Clone, Copy, Debug, PartialEq, Eq, Structural)]
pub enum Key {
    Escape,
    Return,
    Up,
    Down,
    Left,
    Right,
    W,
    S,
    A,
    D,
    Z,
    X,
    J,
    K,
    Other,
}

/// An input event; `repeat` marks a key event the keyboard repeats while the key is held.
#[derive(Clone, Copy, Debug, PartialEq, Eq, Structural)]
pub enum InputEvent {
    /// The window was closed.
    Quit,
    KeyDown { key: Key, repeat: bool },
    KeyUp { key: Key, repeat: bool },
    /// Any other event.
    Other,
}

/// One of the two players.
#[derive(Clone, Copy, Debug, PartialEq, Eq, Structural)]
pub enum Seat {
    One,
    Two,
}

/// Whether the game keeps running after an event.
#[derive(Clone, Copy, Debug, PartialEq, Eq, Structural)]
pub enum Control {
    Continue,
    Quit,
}

/// The key slot a key drives: whose, which of the four, and the way it asks
/// for while held. The first player plays W, S, A, D and the second the
/// arrows; up and left ask for `Up`, down and right for `Down`.
pub open spec fn key_binding(key: Key) -> Option<(Seat, int, Direction)> {
    match key {
        Key::Up => Some((Seat::Two, 0int, Direction::Up)),
        Key::Down => Some((Seat::Two, 1int, Direction::Down)),
        Key::Left => Some((Seat::Two, 2int, Direction::Up)),
        Key::Right => Some((Seat::Two, 3int, Direction::Down)),
        Key::W => Some((Seat::One, 0int, Direction::Up)),
        Key::S => Some((Seat::One, 1int, Direction::Down)),
        Key::A => Some((Seat::One, 2int, Direction::Up)),
        Key::D => Some((Seat::One, 3int, Direction::Down)),
        _ => None,
    }
}

fn binding(key: Key) -> (b: Option<(Seat, usize, Direction)>)
    ensures
        match key_binding(key) {
            Some((seat, slot, dir)) => b == Some((seat, slot as usize, dir)) && 0 <= slot < 4,
            None => b is None,
        },
{
    match key {
        Key::Up => Some((Seat::Two, 0, Direction::Up)),
        Key::Down => Some((Seat::Two, 1, Direction::Down)),
        Key::Left => Some((Seat::Two, 2, Direction::Up)),
        Key::Right => Some((Seat::Two, 3, Direction::Down)),
        Key::W => Some((Seat::One, 0, Direction::Up)),
        Key::S => Some((Seat::One, 1, Direction::Down)),
        Key::A => Some((Seat::One, 2, Direction::Up)),
        Key::D => Some((Seat::One, 3, Direction::Down)),
        _ => None,
    }
}

/// Whether the event ends the game: closing the window, or pressing Escape
/// (repeated or not).
pub open spec fn is_quit(event: InputEvent) -> bool {
    match event {
        InputEvent::Quit => true,
        InputEvent::KeyDown { key, .. } => key == Key::Escape,
        _ => false,
    }
}

/// The key slots of the player in `seat` after the event: a first press of a
/// bound key holds its way in its slot, a first release frees the slot; other
/// events change nothing.
pub open spec fn keys_after(event: InputEvent, seat: Seat, keys: Seq<Direction>) -> Seq<Direction> {
    match event {
        InputEvent::KeyDown { key, repeat } => match key_binding(key) {
            Some((s, slot, dir)) => if !repeat && s == seat { keys.update(slot, dir) } else { keys },
            None => keys,
        },
        InputEvent::KeyUp { key, repeat } => match key_binding(key) {
            Some((s, slot, _)) => if !repeat && s == seat {
                keys.update(slot, Direction::Still)
            } else {
                keys
            },
            None => keys,
        },
        _ => keys,
    }
}

/// Whether `after` has `before`'s paddle position, speed and animation frame.
pub open spec fn same_paddle(before: &Player, after: &Player) -> bool {
    &&& after.position == before.position
    &&& after.speed == before.speed
    &&& after.current_frame == before.current_frame
}

/// Whether `after` is the match `before` with the event applied to the
/// players' key slots, and the paddles, ball and scoreboard as they were.
pub open spec fn keys_applied(before: Game, event: InputEvent, after: Game) -> bool {
    &&& after.player1.direction@ == keys_after(event, Seat::One, before.player1.direction@)
    &&& after.player2.direction@ == keys_after(event, Seat::Two, before.player2.direction@)
    &&& same_paddle(&before.player1, &after.player1)
    &&& same_paddle(&before.player2, &after.player2)
    &&& after.ball == before.ball
    &&& after.scoreboard == before.scoreboard
}

/// The key an event is about, if it is a key event.
pub open spec fn event_key(event: InputEvent) -> Option<Key> {
    match event {
        InputEvent::KeyDown { key, .. } => Some(key),
        InputEvent::KeyUp { key, .. } => Some(key),
        _ => None,
    }
}

/// The first player's movement keys: W, S, A, D.
pub open spec fn first_players_key(key: Key) -> bool {
    key == Key::W || key == Key::S || key == Key::A || key == Key::D
}

/// The second player's movement keys: the arrows.
pub open spec fn second_players_key(key: Key) -> bool {
    key == Key::Up || key == Key::Down || key == Key::Left || key == Key::Right
}

/// Whether the event is about one of the keys `owns` picks out.
pub open spec fn touches(event: InputEvent, owns: spec_fn(Key) -> bool) -> bool {
    match event_key(event) {
        Some(key) => owns(key),
        None => false,
    }
}

/// Keys stay with their player: an event about none of a player's movement
/// keys, pressed or released, leaves that player's key slots as they were.
pub proof fn lemma_keys_stay_with_their_player(event: InputEvent, keys: Seq<Direction>)
    ensures
        !touches(event, |k: Key| first_players_key(k)) ==> keys_after(event, Seat::One, keys) == keys,
        !touches(event, |k: Key| second_players_key(k)) ==> keys_after(event, Seat::Two, keys)
            == keys,
{
}

/// A first release of a movement key frees its slot and no other; a repeated
/// event changes nothing.
pub proof fn lemma_release_frees_one_slot(key: Key, seat: Seat, keys: Seq<Direction>)
    requires
        keys.len() == 4,
    ensures
        ({
            let after = keys_after(InputEvent::KeyUp { key, repeat: false }, seat, keys);
            let mine = if seat == Seat::One { first_players_key(key) } else { second_players_key(key) };
            &&& after.len() == 4
            &&& mine ==> exists|slot: int| 0 <= slot < 4 && #[trigger] after[slot] == Direction::Still
                && forall|j: int| 0 <= j < 4 && j != slot ==> after[j] == keys[j]
            &&& !mine ==> after == keys
        }),
        keys_after(InputEvent::KeyUp { key, repeat: true }, seat, keys) == keys,
        keys_after(InputEvent::KeyDown { key, repeat: true }, seat, keys) == keys,
{
    let after = keys_after(InputEvent::KeyUp { key, repeat: false }, seat, keys);
    let mine = if seat == Seat::One { first_players_key(key) } else { second_players_key(key) };
    if mine {
        if let Some((_, slot, _)) = key_binding(key) {
            assert(after[slot] == Direction::Still);
        }
    }
}

impl Game {
    /// Applies an input event to the players' keys, and says whether it ends the game.
    pub fn handle_event(&mut self, event: InputEvent) -> (control: Control)
        ensures
            control == if is_quit(event) { Control::Quit } else { Control::Continue },
            is_quit(event) ==> *final(self) == *old(self),
            !is_quit(event) ==> keys_applied(*old(self), event, *final(self)),
            !touches(event, |k: Key| first_players_key(k)) ==> final(self).player1.direction
                == old(self).player1.direction,
            !touches(event, |k: Key| second_players_key(k)) ==> final(self).player2.direction
                == old(self).player2.direction,
            final(self).player1.selected == old(self).player1.selected,
            final(self).player2.selected == old(self).player2.selected,
            final(self).player1.choice_pos == old(self).player1.choice_pos,
            final(self).player2.choice_pos == old(self).player2.choice_pos,
    {
        proof {
            lemma_keys_stay_with_their_player(event, self.player1.direction@);
            lemma_keys_stay_with_their_player(event, self.player2.direction@);
        }
        match event {
            InputEvent::Quit => Control::Quit,
            InputEvent::KeyDown { key: Key::Escape, .. } => Control::Quit,
            InputEvent::KeyDown { key, repeat: false } => {
                if let Some((seat, slot, dir)) = binding(key) {
                    match seat {
                        Seat::One => self.player1.direction[slot] = dir,
                        Seat::Two => self.player2.direction[slot] = dir,
                    }
                }
                Control::Continue
            },
            InputEvent::KeyUp { key, repeat: false } => {
                if let Some((seat, slot, _)) = binding(key) {
                    match seat {
                        Seat::One => self.player1.direction[slot] = Direction::Still,
                        Seat::Two => self.player2.direction[slot] = Direction::Still,
                    }
                }
                Control::Continue
            },
            _ => Control::Continue,
        }
    }
}

} // verus!
