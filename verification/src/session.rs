//! A session with character select: the select screen, its sweeping
//! background colour, the choice of arena, then the match.
use vstd::prelude::*;
use crate::config::CHAR_SELECT_BOUND;
use crate::cues::Rgb;
use crate::game::Game;
use crate::input::{is_quit, keys_applied, Control, InputEvent, Key};
use crate::paddle::{max_i32, max_int, min_i32, min_int, Player};

verus! {

/// The stages a session goes through, in order.
#[derive(Clone, Copy, Debug, PartialEq, Eq, Structural)]
pub enum GameStage {
    CharacterSelect,
    StageSelect,
    GameLoop,
}

/// The select screen's background: its red level sweeps up from 0 to 255 and
/// back down, one step a frame.
pub struct Gradient {
    pub level: u8,
    /// Whether the level is on its way down.
    pub falling: bool,
}

/// The gradient after one step from `(level, falling)`.
pub open spec fn gradient_next(level: int, falling: bool) -> (int, bool) {
    if !falling {
        (level + 1, level + 1 == 255)
    } else {
        (level - 1, !(level - 1 == 0))
    }
}

/// The gradient `n` steps after it starts at level 0 going up: a triangle wave
/// of period 510.
pub open spec fn gradient_after(n: nat) -> (int, bool) {
    let r = n % 510;
    if r < 255 {
        (r as int, false)
    } else {
        (510 - r, true)
    }
}

/// `step` applied `n` times from `(level, falling)`.
pub open spec fn gradient_iterate(level: int, falling: bool, n: nat) -> (int, bool)
    decreases n,
{
    if n == 0 {
        (level, falling)
    } else {
        let (l, f) = gradient_next(level, falling);
        gradient_iterate(l, f, (n - 1) as nat)
    }
}

impl Gradient {
    /// The gradient as a session starts: level 0, going up.
    pub fn new() -> (g: Gradient)
        ensures
            g.level == 0,
            !g.falling,
            g.wf(),
    {
        Gradient { level: 0, falling: false }
    }

    /// Whether the next step stays within `0..=255`.
    pub open spec fn wf(&self) -> bool {
        &&& !self.falling ==> self.level < 255
        &&& self.falling ==> self.level > 0
    }

    /// Moves the level one step: up while rising, turning to fall at 255; down
    /// while falling, turning to rise at 0.
    pub fn step(&mut self)
        requires
            old(self).wf(),
        ensures
            (final(self).level as int, final(self).falling) == gradient_next(
                old(self).level as int,
                old(self).falling,
            ),
            final(self).wf(),
    {
        if !self.falling {
            self.level = self.level + 1;
            if self.level == 255 {
                self.falling = true;
            }
        } else {
            self.level = self.level - 1;
            if self.level == 0 {
                self.falling = false;
            }
        }
    }

    /// The select screen's background colour: the level in red, 120 in green,
    /// the rest of 255 in blue.
    pub fn color(&self) -> (c: Rgb)
        ensures
            c == (self.level, 120u8, (255 - self.level) as u8),
    {
        (self.level, 120, 255 - self.level)
    }
}

/// From the start, the gradient after `n` steps is the triangle wave: it
/// rises for 255 frames, falls for 255, and repeats every 510 frames.
pub proof fn lemma_gradient_sweeps(n: nat)
    ensures
        gradient_iterate(0, false, n) == gradient_after(n),
    decreases n,
{
    if n > 0 {
        lemma_gradient_sweeps((n - 1) as nat);
        lemma_iterate_last(0, false, (n - 1) as nat);
        let m = (n - 1) as nat;
        assert(m % 510 + 1 == n % 510 || (m % 510 == 509 && n % 510 == 0));
    }
}

/// Iterating `n + 1` steps is one step after iterating `n`.
proof fn lemma_iterate_last(level: int, falling: bool, n: nat)
    ensures
        gradient_iterate(level, falling, n + 1) == ({
            let (l, f) = gradient_iterate(level, falling, n);
            gradient_next(l, f)
        }),
    decreases n,
{
    let (l, f) = gradient_next(level, falling);
    assert(gradient_iterate(level, falling, n + 1) == gradient_iterate(l, f, n));
    if n > 0 {
        lemma_iterate_last(l, f, (n - 1) as nat);
        assert(gradient_iterate(level, falling, n) == gradient_iterate(l, f, (n - 1) as nat));
    }
}

/// What handling an event asks the caller to do.
#[derive(Clone, Copy, Debug, PartialEq, Eq, Structural)]
pub enum Response {
    Continue,
    Quit,
    /// Both players have locked in: the characters at these indices of the
    /// select screen are theirs, and the arena is to be chosen next.
    CharactersLocked { first: usize, second: usize },
}

/// A session: the match, the stage it is at, and the select screen's background.
pub struct Session {
    pub game: Game,
    pub stage: GameStage,
    pub gradient: Gradient,
}

/// Whether a cursor is on one of the characters.
pub open spec fn cursor_in_range(choice: int) -> bool {
    -CHAR_SELECT_BOUND <= choice <= CHAR_SELECT_BOUND
}

/// The index on the select screen of the character under a cursor.
pub fn character_index(choice: i32) -> (index: usize)
    requires
        cursor_in_range(choice as int),
    ensures
        index == choice + CHAR_SELECT_BOUND,
        index < 5,
{
    (choice + CHAR_SELECT_BOUND) as usize
}

/// A player's cursor after the key that moves it left (`toward_left`) or
/// right: one character over, not past the end, unless the player has locked in.
pub open spec fn cursor_after(p: Player, toward_left: bool) -> int {
    if p.selected {
        p.choice_pos as int
    } else if toward_left {
        max_int(p.choice_pos - 1, -CHAR_SELECT_BOUND)
    } else {
        min_int(p.choice_pos + 1, CHAR_SELECT_BOUND as int)
    }
}

/// The effect of a first press of `key` on the select state of the player in
/// seat one (`first`) or two: (locked in, cursor).
pub open spec fn selection_after(key: Key, p: Player, first: bool) -> (bool, int) {
    let lock = if first { Key::Z } else { Key::J };
    let unlock = if first { Key::X } else { Key::K };
    let left = if first { Key::A } else { Key::Left };
    let right = if first { Key::D } else { Key::Right };
    if key == lock {
        (true, p.choice_pos as int)
    } else if key == unlock {
        (false, p.choice_pos as int)
    } else if key == left {
        (p.selected, cursor_after(p, true))
    } else if key == right {
        (p.selected, cursor_after(p, false))
    } else {
        (p.selected, p.choice_pos as int)
    }
}

/// Whether a first press of `key` locks in both players' characters now.
pub open spec fn locks_characters(s: Session, key: Key) -> bool {
    &&& key == Key::Return
    &&& s.stage == GameStage::CharacterSelect
    &&& s.game.player1.selected
    &&& s.game.player2.selected
}

/// Return moves on from the select screen only when both players have
/// locked in their characters, and then always does.
pub proof fn lemma_return_needs_both_players(s: Session, key: Key)
    ensures
        locks_characters(s, key) ==> s.game.player1.selected && s.game.player2.selected,
        locks_characters(s, key) ==> key == Key::Return && s.stage == GameStage::CharacterSelect,
        key == Key::Return && s.stage == GameStage::CharacterSelect && s.game.player1.selected
            && s.game.player2.selected ==> locks_characters(s, key),
{
}

impl Session {
    /// A new session at the select screen, with a new match waiting.
    pub fn new() -> (s: Session)
        ensures
            s.stage == GameStage::CharacterSelect,
            s.gradient.level == 0,
            !s.gradient.falling,
            s.game.in_play(),
            !s.game.player1.selected,
            !s.game.player2.selected,
            s.game.player1.choice_pos == 0,
            s.game.player2.choice_pos == 0,
            s.wf(),
    {
        Session { game: Game::new(), stage: GameStage::CharacterSelect, gradient: Gradient::new() }
    }

    /// Whether both cursors are on a character and the gradient can step.
    pub open spec fn wf(&self) -> bool {
        &&& cursor_in_range(self.game.player1.choice_pos as int)
        &&& cursor_in_range(self.game.player2.choice_pos as int)
        &&& self.gradient.wf()
    }

    /// Applies an input event: it quits, moves paddles' keys as in a plain
    /// match, locks and unlocks characters (Z and X for the first player, J
    /// and K for the second), moves unlocked cursors (A and D, left and right
    /// arrows), and Return on the select screen with both players locked in
    /// moves on to the arena choice.
    pub fn handle_event(&mut self, event: InputEvent) -> (response: Response)
        requires
            old(self).wf(),
        ensures
            final(self).wf(),
            final(self).gradient == old(self).gradient,
            -1 <= final(self).game.player1.choice_pos - old(self).game.player1.choice_pos <= 1,
            -1 <= final(self).game.player2.choice_pos - old(self).game.player2.choice_pos <= 1,
            old(self).game.player1.selected ==> final(self).game.player1.choice_pos == old(self).game.player1.choice_pos,
            old(self).game.player2.selected ==> final(self).game.player2.choice_pos == old(self).game.player2.choice_pos,
            event != (InputEvent::KeyDown { key: Key::A, repeat: false }) && event != (
            InputEvent::KeyDown { key: Key::D, repeat: false }) ==> final(self).game.player1.choice_pos
                == old(self).game.player1.choice_pos,
            event != (InputEvent::KeyDown { key: Key::Left, repeat: false }) && event != (
            InputEvent::KeyDown { key: Key::Right, repeat: false }) ==> final(self).game.player2.choice_pos == old(self).game.player2.choice_pos,
            event != (InputEvent::KeyDown { key: Key::Z, repeat: false }) && event != (
            InputEvent::KeyDown { key: Key::X, repeat: false }) ==> final(self).game.player1.selected
                == old(self).game.player1.selected,
            event != (InputEvent::KeyDown { key: Key::J, repeat: false }) && event != (
            InputEvent::KeyDown { key: Key::K, repeat: false }) ==> final(self).game.player2.selected
                == old(self).game.player2.selected,
            response is CharactersLocked ==> old(self).game.player1.selected
                && old(self).game.player2.selected && old(self).stage == GameStage::CharacterSelect
                && event == (InputEvent::KeyDown { key: Key::Return, repeat: false }),
            final(self).stage != old(self).stage ==> old(self).stage == GameStage::CharacterSelect
                && final(self).stage == GameStage::StageSelect && old(self).game.player1.selected
                && old(self).game.player2.selected,
            !(old(self).game.player1.selected && old(self).game.player2.selected) ==> final(self).stage == old(self).stage && !(response is CharactersLocked),
            event == (InputEvent::KeyDown { key: Key::Return, repeat: false }) && old(self).stage
                == GameStage::CharacterSelect && old(self).game.player1.selected
                && old(self).game.player2.selected ==> final(self).stage == GameStage::StageSelect
                && response is CharactersLocked,
            is_quit(event) ==> response == Response::Quit && *final(self) == *old(self),
            !is_quit(event) ==> {
                let key_down = event matches InputEvent::KeyDown { key, repeat } && !repeat;
                let locks = event matches InputEvent::KeyDown { key, repeat } && !repeat
                    && locks_characters(*old(self), key);
                &&& keys_applied(old(self).game, event, final(self).game)
                &&& response == if locks {
                    Response::CharactersLocked {
                        first: (old(self).game.player1.choice_pos + CHAR_SELECT_BOUND) as usize,
                        second: (old(self).game.player2.choice_pos + CHAR_SELECT_BOUND) as usize,
                    }
                } else {
                    Response::Continue
                }
                &&& final(self).stage == if locks {
                    GameStage::StageSelect
                } else {
                    old(self).stage
                }
                &&& match event {
                    InputEvent::KeyDown { key, repeat } => if !repeat {
                        &&& (final(self).game.player1.selected, final(self).game.player1.choice_pos as int)
                            == selection_after(key, old(self).game.player1, true)
                        &&& (final(self).game.player2.selected, final(self).game.player2.choice_pos as int)
                            == selection_after(key, old(self).game.player2, false)
                    } else {
                        final(self).game.player1.selected == old(self).game.player1.selected
                            && final(self).game.player1.choice_pos == old(self).game.player1.choice_pos
                            && final(self).game.player2.selected == old(self).game.player2.selected
                            && final(self).game.player2.choice_pos == old(self).game.player2.choice_pos
                    },
                    _ => final(self).game.player1.selected == old(self).game.player1.selected
                        && final(self).game.player1.choice_pos == old(self).game.player1.choice_pos
                        && final(self).game.player2.selected == old(self).game.player2.selected
                        && final(self).game.player2.choice_pos == old(self).game.player2.choice_pos,
                }
            },
    {
        if let Control::Quit = self.game.handle_event(event) {
            return Response::Quit;
        }
        let mut response = Response::Continue;
        if let InputEvent::KeyDown { key, repeat: false } = event {
            match key {
                Key::Return => {
                    if let GameStage::CharacterSelect = self.stage {
                        if self.game.player1.selected && self.game.player2.selected {
                            self.stage = GameStage::StageSelect;
                            response = Response::CharactersLocked {
                                first: character_index(self.game.player1.choice_pos),
                                second: character_index(self.game.player2.choice_pos),
                            };
                        }
                    }
                },
                Key::Z => {
                    self.game.player1.selected = true;
                },
                Key::X => {
                    self.game.player1.selected = false;
                },
                Key::J => {
                    self.game.player2.selected = true;
                },
                Key::K => {
                    self.game.player2.selected = false;
                },
                Key::Left => {
                    if !self.game.player2.selected {
                        self.game.player2.choice_pos = max_i32(
                            self.game.player2.choice_pos - 1,
                            -CHAR_SELECT_BOUND,
                        );
                    }
                },
                Key::Right => {
                    if !self.game.player2.selected {
                        self.game.player2.choice_pos = min_i32(
                            self.game.player2.choice_pos + 1,
                            CHAR_SELECT_BOUND,
                        );
                    }
                },
                Key::A => {
                    if !self.game.player1.selected {
                        self.game.player1.choice_pos = max_i32(
                            self.game.player1.choice_pos - 1,
                            -CHAR_SELECT_BOUND,
                        );
                    }
                },
                Key::D => {
                    if !self.game.player1.selected {
                        self.game.player1.choice_pos = min_i32(
                            self.game.player1.choice_pos + 1,
                            CHAR_SELECT_BOUND,
                        );
                    }
                },
                _ => {},
            }
        }
        response
    }

    /// Leaves the arena choice for the match itself.
    pub fn begin_play(&mut self)
        ensures
            final(self).stage == GameStage::GameLoop,
            final(self).game == old(self).game,
            final(self).gradient == old(self).gradient,
    {
        self.stage = GameStage::GameLoop;
    }
}

} // verus!
