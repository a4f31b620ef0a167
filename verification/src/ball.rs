//! The ball: how it flies, bounces off the side walls, and is sent back by a paddle.
use vstd::prelude::*;
use crate::config::{
    BALL_MAX_XSPEED, BALL_MAX_YSPEED, BALL_RAMP_SPEED, BALL_X_LIMIT, BALL_Y_LIMIT, PADDLE_HEIGHT,
    PADDLE_WIDTH,
};
use crate::geometry::{
    centered_rect, clamp_position, lemma_point_in_range, rect_contains, Point,
    Rect, POSITION_MAX, POSITION_MIN,
};
use crate::paddle::{max_i32, max_int, min_i32, min_int, Direction, Player};

verus! {

broadcast use lemma_point_in_range;

/// The ball. Its horizontal direction is `Left` or `Right` and its vertical
/// one `Up` or `Down` during play.
pub struct Ball {
    /// Centre of the ball; the field's centre is `(0, 0)`, `y` grows downwards.
    pub position: Point,
    /// Horizontal and vertical speed, in pixels per frame.
    pub velocity: [i32; 2],
    pub direction_x: Direction,
    pub direction_y: Direction,
}

/// Everything about a ball, as mathematical values.
pub struct BallState {
    pub x: int,
    pub y: int,
    pub vx: int,
    pub vy: int,
    pub dir_x: Direction,
    pub dir_y: Direction,
}

impl Ball {
    pub open spec fn state(&self) -> BallState {
        BallState {
            x: self.position.spec_x(),
            y: self.position.spec_y(),
            vx: self.velocity@[0] as int,
            vy: self.velocity@[1] as int,
            dir_x: self.direction_x,
            dir_y: self.direction_y,
        }
    }
}

/// A field coordinate seen on a screen `extent` pixels across, whose centre is
/// the field's centre.
pub open spec fn to_screen(v: int, extent: int) -> int {
    clamp_position(v + extent / 2)
}

/// Whether a paddle centred at `(paddle_x, paddle_y)` covers the ball's centre,
/// both seen on a screen of the given size.
pub open spec fn deflects(
    ball_x: int,
    ball_y: int,
    paddle_x: int,
    paddle_y: int,
    width: int,
    height: int,
) -> bool {
    let paddle = centered_rect(
        to_screen(paddle_x, width),
        to_screen(paddle_y, height),
        PADDLE_WIDTH as int,
        PADDLE_HEIGHT as int,
    );
    rect_contains(paddle, to_screen(ball_x, width), to_screen(ball_y, height))
}

/// Whether the paddle covers the ball's centre, on the field itself: the
/// paddle spans `PADDLE_WIDTH` columns and `PADDLE_HEIGHT` rows around its centre.
pub open spec fn paddle_covers(ball_x: int, ball_y: int, paddle_x: int, paddle_y: int) -> bool {
    let left = paddle_x - PADDLE_WIDTH / 2;
    let top = paddle_y - PADDLE_HEIGHT / 2;
    &&& left <= ball_x < left + PADDLE_WIDTH
    &&& top <= ball_y < top + PADDLE_HEIGHT
}

/// Whether a coordinate, and the paddle's edges around it, keep clear of the
/// clamping bounds when shown on a screen `extent` pixels across.
pub open spec fn clear_of_bounds(v: int, extent: int) -> bool {
    POSITION_MIN + PADDLE_HEIGHT <= v + extent / 2 <= POSITION_MAX - PADDLE_HEIGHT
}

/// Whether the paddle of `player` covers the ball, both seen on a screen of
/// `width` by `height` pixels centred on the field.
pub fn ball_deflected(ball: &Ball, player: &Player, width: u32, height: u32) -> (hit: bool)
    requires
        width <= i32::MAX,
        height <= i32::MAX,
    ensures
        hit == deflects(
            ball.state().x,
            ball.state().y,
            player.position.spec_x(),
            player.position.spec_y(),
            width as int,
            height as int,
        ),
        ({
            let (bx, by) = (ball.state().x, ball.state().y);
            let (px, py) = (player.position.spec_x(), player.position.spec_y());
            clear_of_bounds(bx, width as int) && clear_of_bounds(by, height as int)
                && clear_of_bounds(px, width as int) && clear_of_bounds(py, height as int)
                ==> (hit == paddle_covers(bx, by, px, py))
        }),
{
    let center = Point::new(width as i32 / 2, height as i32 / 2);
    let paddle_position = player.position.plus(&center);
    let ball_position = ball.position.plus(&center);
    Rect::from_center(&paddle_position, PADDLE_WIDTH, PADDLE_HEIGHT).contains_point(&ball_position)
}

/// The ball after its vertical move: `vy` up or down, stopping at the top or
/// bottom wall, turning round when the move would have gone past it.
pub open spec fn vertical_step(s: BallState) -> BallState {
    let limit = BALL_Y_LIMIT as int;
    match s.dir_y {
        Direction::Up => BallState {
            y: clamp_position(max_int(s.y - s.vy, -limit)),
            dir_y: if s.y - s.vy < -limit { Direction::Down } else { Direction::Up },
            ..s
        },
        Direction::Down => BallState {
            y: clamp_position(min_int(s.y + s.vy, limit)),
            dir_y: if s.y + s.vy > limit { Direction::Up } else { Direction::Down },
            ..s
        },
        _ => s,
    }
}

/// The ball after its horizontal move: `vx` left or right, stopping at the goal
/// line, turning round when the move reaches or would pass it.
pub open spec fn horizontal_step(s: BallState) -> BallState {
    let limit = BALL_X_LIMIT as int;
    match s.dir_x {
        Direction::Left => BallState {
            x: clamp_position(max_int(s.x - s.vx, -limit)),
            dir_x: if s.x - s.vx <= -limit { Direction::Right } else { Direction::Left },
            ..s
        },
        Direction::Right => BallState {
            x: clamp_position(min_int(s.x + s.vx, limit)),
            dir_x: if s.x + s.vx >= limit { Direction::Left } else { Direction::Right },
            ..s
        },
        _ => s,
    }
}

/// The ball sent back by a paddle: it turns round and speeds up, up to the caps.
pub open spec fn returned(s: BallState, dir_x: Direction) -> BallState {
    BallState {
        vx: min_int(s.vx + BALL_RAMP_SPEED, BALL_MAX_XSPEED as int),
        vy: min_int(s.vy + BALL_RAMP_SPEED, BALL_MAX_YSPEED as int),
        dir_x,
        ..s
    }
}

/// Whether, in this frame, the ball flies horizontally into the paddle at
/// `(paddle_x, paddle_y)` seen on a screen of the given size.
pub open spec fn step_hits_paddle(
    s: BallState,
    paddle_x: int,
    paddle_y: int,
    width: int,
    height: int,
) -> bool {
    let moved = horizontal_step(vertical_step(s));
    &&& (s.dir_x == Direction::Left || s.dir_x == Direction::Right)
    &&& deflects(moved.x, moved.y, paddle_x, paddle_y, width, height)
}

/// The ball after one frame of play against the paddle at `(paddle_x, paddle_y)`.
pub open spec fn ball_step(s: BallState, paddle_x: int, paddle_y: int, width: int, height: int) -> BallState {
    let moved = horizontal_step(vertical_step(s));
    if step_hits_paddle(s, paddle_x, paddle_y, width, height) {
        returned(
            moved,
            if s.dir_x == Direction::Left { Direction::Right } else { Direction::Left },
        )
    } else {
        moved
    }
}

/// The way opposite a horizontal heading.
pub open spec fn reversed(d: Direction) -> Direction {
    match d {
        Direction::Left => Direction::Right,
        Direction::Right => Direction::Left,
        _ => d,
    }
}

/// A ball heading left or right that ends its move on the paddle, whichever
/// side the paddle is on, turns round and speeds up by `BALL_RAMP_SPEED` on
/// both axes, up to the caps; a ball that does not end on the paddle keeps
/// its speeds.
pub proof fn lemma_paddle_return_speeds_up(
    s: BallState,
    paddle_x: int,
    paddle_y: int,
    width: int,
    height: int,
)
    requires
        s.dir_x == Direction::Left || s.dir_x == Direction::Right,
    ensures
        ({
            let r = ball_step(s, paddle_x, paddle_y, width, height);
            let hit = deflects(r.x, r.y, paddle_x, paddle_y, width, height);
            &&& hit ==> r.vx == min_int(s.vx + BALL_RAMP_SPEED, BALL_MAX_XSPEED as int)
                && r.vy == min_int(s.vy + BALL_RAMP_SPEED, BALL_MAX_YSPEED as int)
                && r.dir_x == reversed(s.dir_x)
            &&& !hit ==> r.vx == s.vx && r.vy == s.vy
            &&& hit == step_hits_paddle(s, paddle_x, paddle_y, width, height)
        }),
{
}

/// Moves the ball one frame: vertically, bouncing off the top and bottom walls;
/// then horizontally, turning round at the goal line; then, if it now lies on
/// the paddle of `player`, sends it back faster.
pub fn update_ball(ball: &mut Ball, player: &Player, width: u32, height: u32)
    requires
        width <= i32::MAX,
        height <= i32::MAX,
        old(ball).direction_y == Direction::Up ==> old(ball).velocity@[1] > i32::MIN,
        old(ball).direction_x == Direction::Left ==> old(ball).velocity@[0] > i32::MIN,
        step_hits_paddle(
            old(ball).state(),
            player.position.spec_x(),
            player.position.spec_y(),
            width as int,
            height as int,
        ) ==> old(ball).velocity@[0] < i32::MAX && old(ball).velocity@[1] < i32::MAX,
    ensures
        final(ball).state() == ball_step(
            old(ball).state(),
            player.position.spec_x(),
            player.position.spec_y(),
            width as int,
            height as int,
        ),
        ({
            let (before, after) = (old(ball).state(), final(ball).state());
            let hit = (before.dir_x == Direction::Left || before.dir_x == Direction::Right)
                && deflects(
                after.x,
                after.y,
                player.position.spec_x(),
                player.position.spec_y(),
                width as int,
                height as int,
            );
            &&& after.vx == if hit {
                min_int(before.vx + BALL_RAMP_SPEED, BALL_MAX_XSPEED as int)
            } else {
                before.vx
            }
            &&& after.vy == if hit {
                min_int(before.vy + BALL_RAMP_SPEED, BALL_MAX_YSPEED as int)
            } else {
                before.vy
            }
            &&& hit ==> after.dir_x == reversed(before.dir_x)
        }),
{
    let ghost before = ball.state();
    let y_limit = BALL_Y_LIMIT as i32;
    let x_limit = BALL_X_LIMIT as i32;
    match ball.direction_y {
        Direction::Up => {
            if -ball.velocity[1] < -ball.position.y() - y_limit {
                ball.direction_y = Direction::Down;
            }
            let step = max_i32(-ball.velocity[1], -ball.position.y() - y_limit);
            ball.position = ball.position.offset(0, step);
        },
        Direction::Down => {
            if ball.velocity[1] > y_limit - ball.position.y() {
                ball.direction_y = Direction::Up;
            }
            let step = min_i32(ball.velocity[1], y_limit - ball.position.y());
            ball.position = ball.position.offset(0, step);
        },
        _ => {},
    }
    assert(ball.state() == vertical_step(old(ball).state()));
    match ball.direction_x {
        Direction::Left => {
            if -ball.velocity[0] <= -ball.position.x() - x_limit {
                ball.direction_x = Direction::Right;
            }
            let step = max_i32(-ball.velocity[0], -ball.position.x() - x_limit);
            ball.position = ball.position.offset(step, 0);
            if ball_deflected(ball, player, width, height) {
                ball.direction_x = Direction::Right;
                ball.velocity = [
                    min_i32(ball.velocity[0] + BALL_RAMP_SPEED, BALL_MAX_XSPEED),
                    min_i32(ball.velocity[1] + BALL_RAMP_SPEED, BALL_MAX_YSPEED),
                ];
            }
        },
        Direction::Right => {
            if ball.velocity[0] >= x_limit - ball.position.x() {
                ball.direction_x = Direction::Left;
            }
            let step = min_i32(ball.velocity[0], x_limit - ball.position.x());
            ball.position = ball.position.offset(step, 0);
            if ball_deflected(ball, player, width, height) {
                ball.direction_x = Direction::Left;
                ball.velocity = [
                    min_i32(ball.velocity[0] + BALL_RAMP_SPEED, BALL_MAX_XSPEED),
                    min_i32(ball.velocity[1] + BALL_RAMP_SPEED, BALL_MAX_YSPEED),
                ];
            }
        },
        _ => {},
    }
    proof {
        if before.dir_x == Direction::Left || before.dir_x == Direction::Right {
            lemma_paddle_return_speeds_up(
                before,
                player.position.spec_x(),
                player.position.spec_y(),
                width as int,
                height as int,
            );
        }
    }
}

/// Whether the ball lies on either goal line, which ends the round.
pub fn round_over(ball: &Ball) -> (over: bool)
    ensures
        over == (ball.state().x == -(BALL_X_LIMIT as int) || ball.state().x == BALL_X_LIMIT as int),
{
    let x_limit = BALL_X_LIMIT as i32;
    if ball.position.x() == -x_limit {
        return true;
    } else if ball.position.x() == x_limit {
        return true;
    }
    false
}

/// Whether the ball's centre is on the field, between the walls and the goal lines.
pub open spec fn on_field(s: BallState) -> bool {
    &&& -(BALL_X_LIMIT as int) <= s.x <= BALL_X_LIMIT as int
    &&& -(BALL_Y_LIMIT as int) <= s.y <= BALL_Y_LIMIT as int
}

/// Whether the ball's speeds are within their caps and not negative.
pub open spec fn speed_capped(s: BallState) -> bool {
    &&& 0 <= s.vx <= BALL_MAX_XSPEED
    &&& 0 <= s.vy <= BALL_MAX_YSPEED
}

/// A ball on the field, moving with speeds that are not negative, stays on
/// the field: the walls and goal lines stop it.
pub proof fn lemma_ball_stays_on_field(
    s: BallState,
    paddle_x: int,
    paddle_y: int,
    width: int,
    height: int,
)
    requires
        on_field(s),
        s.vx >= 0,
        s.vy >= 0,
    ensures
        on_field(ball_step(s, paddle_x, paddle_y, width, height)),
{
}

/// The ball's speeds never leave their caps and never drop: each paddle hit
/// raises each speed by `BALL_RAMP_SPEED` up to its cap, and nothing else
/// changes them.
pub proof fn lemma_ball_speed_capped(
    s: BallState,
    paddle_x: int,
    paddle_y: int,
    width: int,
    height: int,
)
    requires
        speed_capped(s),
    ensures
        speed_capped(ball_step(s, paddle_x, paddle_y, width, height)),
        ball_step(s, paddle_x, paddle_y, width, height).vx >= s.vx,
        ball_step(s, paddle_x, paddle_y, width, height).vy >= s.vy,
        !step_hits_paddle(s, paddle_x, paddle_y, width, height) ==> ball_step(
            s,
            paddle_x,
            paddle_y,
            width,
            height,
        ).vx == s.vx && ball_step(s, paddle_x, paddle_y, width, height).vy == s.vy,
{
}

/// On the field, the ball moves `vy` pixels its vertical way but never past
/// the top or bottom wall, turning round only when the move would carry it
/// beyond the wall; it moves `vx` pixels its horizontal way but never past the
/// goal line, turning round when the move reaches or passes the goal line,
/// and otherwise only when it ends on the paddle. A ball heading neither left
/// nor right keeps its column, speeds and heading.
pub proof fn lemma_walls_and_goal_lines_stop_the_ball(
    s: BallState,
    paddle_x: int,
    paddle_y: int,
    width: int,
    height: int,
)
    requires
        on_field(s),
        s.vx >= 0,
        s.vy >= 0,
    ensures
        ({
            let r = ball_step(s, paddle_x, paddle_y, width, height);
            let top = -(BALL_Y_LIMIT as int);
            let bottom = BALL_Y_LIMIT as int;
            let left = -(BALL_X_LIMIT as int);
            let right = BALL_X_LIMIT as int;
            let hit = deflects(r.x, r.y, paddle_x, paddle_y, width, height);
            &&& s.dir_y == Direction::Up ==> r.y == (if s.y - s.vy < top { top } else { s.y - s.vy })
                && (r.dir_y == Direction::Down) == (s.y - s.vy < top) && (r.dir_y == Direction::Down
                || r.dir_y == Direction::Up)
            &&& s.dir_y == Direction::Down ==> r.y == (if s.y + s.vy > bottom {
                bottom
            } else {
                s.y + s.vy
            }) && (r.dir_y == Direction::Up) == (s.y + s.vy > bottom) && (r.dir_y
                == Direction::Down || r.dir_y == Direction::Up)
            &&& s.dir_y != Direction::Up && s.dir_y != Direction::Down ==> r.y == s.y && r.dir_y
                == s.dir_y
            &&& s.dir_x == Direction::Left ==> r.x == (if s.x - s.vx <= left {
                left
            } else {
                s.x - s.vx
            }) && r.dir_x == (if s.x - s.vx <= left || hit {
                Direction::Right
            } else {
                Direction::Left
            })
            &&& s.dir_x == Direction::Right ==> r.x == (if s.x + s.vx >= right {
                right
            } else {
                s.x + s.vx
            }) && r.dir_x == (if s.x + s.vx >= right || hit {
                Direction::Left
            } else {
                Direction::Right
            })
            &&& s.dir_x != Direction::Left && s.dir_x != Direction::Right ==> r.x == s.x && r.vx
                == s.vx && r.vy == s.vy && r.dir_x == s.dir_x
        }),
{
}

} // verus!
