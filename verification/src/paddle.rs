//! The players' paddles and how the keys held move them.
use vstd::prelude::*;
use crate::config::{PADDLE_Y_LIMIT, PLAYER_MOVEMENT_SPEED};
use crate::geometry::{clamp_position, lemma_point_in_range, Point};

verus! {

broadcast use lemma_point_in_range;

/// A direction a key asks for; `Still` marks a key slot that is not held.
#[derive(Clone, Copy, Debug, PartialEq, Eq, Structural)]
pub enum Direction {
    Up,
    Down,
    Left,
    Right,
    Still,
}

/// Number of key slots a player has: the four keys that can move its paddle.
pub const KEY_SLOTS: usize = 4;

/// A player: its paddle, the keys it holds, and its cursor on the select screen.
pub struct Player {
    /// Centre of the paddle; the field's centre is `(0, 0)`, `y` grows downwards.
    pub position: Point,
    /// How far the paddle moves in one frame.
    pub speed: i32,
    /// What each of the player's four movement keys asks for while held.
    pub direction: [Direction; 4],
    /// Animation frame counter, cycling through `0..12`.
    pub current_frame: i32,
    /// Whether the player has locked in a character.
    pub selected: bool,
    /// The character under the player's cursor, from `-CHAR_SELECT_BOUND` to `CHAR_SELECT_BOUND`.
    pub choice_pos: i32,
}

pub open spec fn max_int(a: int, b: int) -> int {
    if a >= b { a } else { b }
}

pub open spec fn min_int(a: int, b: int) -> int {
    if a <= b { a } else { b }
}

pub fn max_i32(a: i32, b: i32) -> (r: i32)
    ensures
        r == max_int(a as int, b as int),
{
    if a >= b { a } else { b }
}

pub fn min_i32(a: i32, b: i32) -> (r: i32)
    ensures
        r == min_int(a as int, b as int),
{
    if a <= b { a } else { b }
}

/// Where a paddle at height `y` goes when moved up: `speed` higher, but not past the top.
pub open spec fn paddle_up(y: int, speed: int) -> int {
    clamp_position(max_int(y - speed, -(PADDLE_Y_LIMIT as int)))
}

/// Where a paddle at height `y` goes when moved down: `speed` lower, but not past the bottom.
pub open spec fn paddle_down(y: int, speed: int) -> int {
    clamp_position(min_int(y + speed, PADDLE_Y_LIMIT as int))
}

/// The paddle's height after going through the key slots in order, with
/// whether it has already moved up and already moved down: each way is taken
/// at most once, at the first slot that asks for it.
pub open spec fn slots_effect(y: int, speed: int, slots: Seq<Direction>) -> (int, bool, bool)
    decreases slots.len(),
{
    if slots.len() == 0 {
        (y, false, false)
    } else {
        let (y0, up, down) = slots_effect(y, speed, slots.drop_last());
        match slots.last() {
            Direction::Up => if up { (y0, up, down) } else { (paddle_up(y0, speed), true, down) },
            Direction::Down => if down { (y0, up, down) } else { (paddle_down(y0, speed), up, true) },
            _ => (y0, up, down),
        }
    }
}

/// The paddle's height after one frame with the given keys held.
pub open spec fn moved_paddle_y(y: int, speed: int, slots: Seq<Direction>) -> int {
    slots_effect(y, speed, slots).0
}

/// Rust's remainder, which takes the sign of the dividend.
pub open spec fn truncated_rem(a: int, m: int) -> int {
    if a >= 0 { a % m } else { -((-a) % m) }
}

/// The animation frame that follows `frame`.
pub open spec fn next_frame(frame: int) -> int {
    truncated_rem(frame + 1, 12)
}

impl Player {
    /// A player whose paddle is centred at `(x, 0)`, holding no key, with its
    /// cursor on the middle character and nothing selected yet.
    pub fn new(x: i32) -> (p: Player)
        ensures
            p.position.spec_x() == clamp_position(x as int),
            p.position.spec_y() == 0,
            p.speed == PLAYER_MOVEMENT_SPEED,
            p.direction@ == seq![Direction::Still, Direction::Still, Direction::Still, Direction::Still],
            p.current_frame == 0,
            !p.selected,
            p.choice_pos == 0,
    {
        Player {
            position: Point::new(x, 0),
            speed: PLAYER_MOVEMENT_SPEED,
            direction: [Direction::Still, Direction::Still, Direction::Still, Direction::Still],
            current_frame: 0,
            selected: false,
            choice_pos: 0,
        }
    }

    /// Whether the paddle is within its lane, moves forwards, and its
    /// animation frame is in `0..12`.
    pub open spec fn in_lane(&self) -> bool {
        &&& -(PADDLE_Y_LIMIT as int) <= self.position.spec_y() <= PADDLE_Y_LIMIT as int
        &&& self.speed >= 0
        &&& 0 <= self.current_frame < 12
    }

    /// Computes `in_lane`.
    pub fn is_in_lane(&self) -> (r: bool)
        ensures
            r == self.in_lane(),
    {
        let limit = PADDLE_Y_LIMIT as i32;
        let y = self.position.y();
        -limit <= y && y <= limit && self.speed >= 0 && 0 <= self.current_frame && self.current_frame < 12
    }
}

/// A paddle that starts within its lane stays there, whatever keys are held.
pub proof fn lemma_paddle_stays_in_lane(y: int, speed: int, slots: Seq<Direction>)
    requires
        -(PADDLE_Y_LIMIT as int) <= y <= PADDLE_Y_LIMIT as int,
        speed >= 0,
    ensures
        -(PADDLE_Y_LIMIT as int) <= moved_paddle_y(y, speed, slots) <= PADDLE_Y_LIMIT as int,
    decreases slots.len(),
{
    if slots.len() > 0 {
        lemma_paddle_stays_in_lane(y, speed, slots.drop_last());
    }
}

/// With neither an up nor a down key held, the paddle does not move.
pub proof fn lemma_idle_paddle_stays(y: int, speed: int, slots: Seq<Direction>)
    requires
        !slots.contains(Direction::Up),
        !slots.contains(Direction::Down),
    ensures
        slots_effect(y, speed, slots) == (y, false, false),
    decreases slots.len(),
{
    if slots.len() > 0 {
        assert(!slots.drop_last().contains(Direction::Up)) by {
            if slots.drop_last().contains(Direction::Up) {
                let k = choose|k: int| 0 <= k < slots.drop_last().len() && slots.drop_last()[k] == Direction::Up;
                assert(slots[k] == Direction::Up);
            }
        }
        assert(!slots.drop_last().contains(Direction::Down)) by {
            if slots.drop_last().contains(Direction::Down) {
                let k = choose|k: int| 0 <= k < slots.drop_last().len() && slots.drop_last()[k] == Direction::Down;
                assert(slots[k] == Direction::Down);
            }
        }
        lemma_idle_paddle_stays(y, speed, slots.drop_last());
        assert(slots[slots.len() - 1] == slots.last());
    }
}

/// Whether some slot holds `a` with no slot before it holding `b`.
pub open spec fn held_before(slots: Seq<Direction>, a: Direction, b: Direction) -> bool {
    exists|k: int|
        0 <= k < slots.len() && #[trigger] slots[k] == a && forall|j: int|
            0 <= j < k ==> slots[j] != b
}

/// The height a paddle reaches from `y` in one frame, by which ways are held
/// in any of its slots: up moves it `speed` higher but not past the top, down
/// `speed` lower but not past the bottom; with both held, the way held in the
/// earlier slot goes first.
pub open spec fn held_ways_move(y: int, speed: int, slots: Seq<Direction>) -> int {
    let limit = PADDLE_Y_LIMIT as int;
    let up = slots.contains(Direction::Up);
    let down = slots.contains(Direction::Down);
    let raised = clamp_position(max_int(y - speed, -limit));
    let lowered = clamp_position(min_int(y + speed, limit));
    if !up && !down {
        y
    } else if up && !down {
        raised
    } else if !up && down {
        lowered
    } else if held_before(slots, Direction::Up, Direction::Down) {
        clamp_position(min_int(raised + speed, limit))
    } else {
        clamp_position(max_int(lowered - speed, -limit))
    }
}

proof fn lemma_contains_last(slots: Seq<Direction>, x: Direction)
    requires
        slots.len() > 0,
    ensures
        slots.contains(x) == (slots.drop_last().contains(x) || slots.last() == x),
{
    let pre = slots.drop_last();
    if slots.contains(x) {
        let k = choose|k: int| 0 <= k < slots.len() && slots[k] == x;
        if k < slots.len() - 1 {
            assert(pre[k] == x);
        }
    }
    if pre.contains(x) {
        let k = choose|k: int| 0 <= k < pre.len() && pre[k] == x;
        assert(slots[k] == x);
    }
    if slots.last() == x {
        assert(slots[slots.len() - 1] == x);
    }
}

proof fn lemma_held_before_last(slots: Seq<Direction>)
    requires
        slots.len() > 0,
    ensures
        held_before(slots, Direction::Up, Direction::Down) == if slots.drop_last().contains(
            Direction::Up,
        ) || slots.drop_last().contains(Direction::Down) {
            held_before(slots.drop_last(), Direction::Up, Direction::Down)
        } else {
            slots.last() == Direction::Up
        },
{
    let pre = slots.drop_last();
    let n = slots.len() - 1;
    if held_before(slots, Direction::Up, Direction::Down) {
        let k = choose|k: int|
            0 <= k < slots.len() && #[trigger] slots[k] == Direction::Up && forall|j: int|
                0 <= j < k ==> slots[j] != Direction::Down;
        if k < n {
            assert(pre[k] == Direction::Up);
            assert(forall|j: int| 0 <= j < k ==> pre[j] == slots[j]);
            assert(held_before(pre, Direction::Up, Direction::Down));
        } else {
            if pre.contains(Direction::Up) {
                let i = choose|i: int| 0 <= i < pre.len() && pre[i] == Direction::Up;
                assert(slots[i] == Direction::Up);
            }
            if pre.contains(Direction::Down) {
                let i = choose|i: int| 0 <= i < pre.len() && pre[i] == Direction::Down;
                assert(slots[i] == Direction::Down);
            }
        }
    }
    if pre.contains(Direction::Up) || pre.contains(Direction::Down) {
        if held_before(pre, Direction::Up, Direction::Down) {
            let k = choose|k: int|
                0 <= k < pre.len() && #[trigger] pre[k] == Direction::Up && forall|j: int|
                    0 <= j < k ==> pre[j] != Direction::Down;
            assert(slots[k] == Direction::Up);
            assert(forall|j: int| 0 <= j < k ==> pre[j] == slots[j]);
        } else if held_before(slots, Direction::Up, Direction::Down) {
            let k = choose|k: int|
                0 <= k < slots.len() && #[trigger] slots[k] == Direction::Up && forall|j: int|
                    0 <= j < k ==> slots[j] != Direction::Down;
            if k == n {
                if pre.contains(Direction::Up) {
                    let i = choose|i: int| 0 <= i < pre.len() && pre[i] == Direction::Up;
                    assert(slots[i] == Direction::Up);
                    assert(pre[i] == Direction::Up);
                    assert(forall|j: int| 0 <= j < i ==> pre[j] == slots[j]);
                    assert(held_before(pre, Direction::Up, Direction::Down));
                } else {
                    let i = choose|i: int| 0 <= i < pre.len() && pre[i] == Direction::Down;
                    assert(slots[i] == Direction::Down);
                }
            }
        }
    } else if slots.last() == Direction::Up {
        assert(slots[n] == Direction::Up);
        assert forall|j: int| 0 <= j < n implies slots[j] != Direction::Down by {
            assert(slots[j] == pre[j]);
        }
    }
}

/// How a paddle moves depends only on which ways its keys hold, and for both
/// ways on which is held in the earlier slot, not on which of the slots hold
/// them; the frame also records which ways were held.
pub proof fn lemma_paddle_moves_by_held_ways(y: int, speed: int, slots: Seq<Direction>)
    ensures
        slots_effect(y, speed, slots) == (
            held_ways_move(y, speed, slots),
            slots.contains(Direction::Up),
            slots.contains(Direction::Down),
        ),
    decreases slots.len(),
{
    if slots.len() > 0 {
        let pre = slots.drop_last();
        lemma_paddle_moves_by_held_ways(y, speed, pre);
        lemma_contains_last(slots, Direction::Up);
        lemma_contains_last(slots, Direction::Down);
        lemma_held_before_last(slots);
    } else {
        assert(!slots.contains(Direction::Up));
        assert(!slots.contains(Direction::Down));
    }
}

/// The animation frame counts up by one from 0 to 11 and then starts again at 0.
pub proof fn lemma_frame_counts_round(frame: int)
    requires
        0 <= frame < 12,
    ensures
        next_frame(frame) == if frame == 11 { 0 } else { frame + 1 },
        0 <= next_frame(frame) < 12,
{
}

/// Moves the paddle as the held keys ask (each way at most once a frame, never
/// past the top or bottom of the field) and advances its animation frame.
pub fn update_player(player: &mut Player)
    requires
        old(player).speed > i32::MIN,
        old(player).current_frame < i32::MAX,
    ensures
        final(player).position.spec_x() == old(player).position.spec_x(),
        final(player).position.spec_y() == moved_paddle_y(
            old(player).position.spec_y(),
            old(player).speed as int,
            old(player).direction@,
        ),
        final(player).position.spec_y() == held_ways_move(
            old(player).position.spec_y(),
            old(player).speed as int,
            old(player).direction@,
        ),
        final(player).current_frame == next_frame(old(player).current_frame as int),
        final(player).speed == old(player).speed,
        final(player).direction == old(player).direction,
        final(player).selected == old(player).selected,
        final(player).choice_pos == old(player).choice_pos,
{
    let ghost y0 = player.position.spec_y();
    let mut moved_up = false;
    let mut moved_down = false;
    let mut i: usize = 0;
    while i < KEY_SLOTS
        invariant
            0 <= i <= KEY_SLOTS,
            player.speed == old(player).speed,
            player.speed > i32::MIN,
            player.direction == old(player).direction,
            player.current_frame == old(player).current_frame,
            player.selected == old(player).selected,
            player.choice_pos == old(player).choice_pos,
            player.position.spec_x() == old(player).position.spec_x(),
            y0 == old(player).position.spec_y(),
            (player.position.spec_y(), moved_up, moved_down) == slots_effect(
                y0,
                player.speed as int,
                player.direction@.take(i as int),
            ),
        decreases KEY_SLOTS - i,
    {
        assert(player.direction@.take(i as int) == player.direction@.take((i + 1) as int).drop_last());
        match player.direction[i] {
            Direction::Up => {
                if !moved_up {
                    let limit = -(PADDLE_Y_LIMIT as i32);
                    let step = max_i32(-player.speed, limit - player.position.y());
                    player.position = player.position.offset(0, step);
                    moved_up = true;
                }
            },
            Direction::Down => {
                if !moved_down {
                    let limit = PADDLE_Y_LIMIT as i32;
                    let step = min_i32(player.speed, limit - player.position.y());
                    player.position = player.position.offset(0, step);
                    moved_down = true;
                }
            },
            _ => {},
        }
        i = i + 1;
    }
    assert(player.direction@.take(KEY_SLOTS as int) == player.direction@);
    proof {
        lemma_paddle_moves_by_held_ways(y0, player.speed as int, player.direction@);
    }
    let next = player.current_frame + 1;
    player.current_frame = if next >= 0 { next % 12 } else { -((-next) % 12) };
}

} // verus!
