//! A match: two players, the ball and the scoreboard, played frame by frame.
use vstd::prelude::*;
use crate::ball::{
    ball_step, lemma_ball_speed_capped, lemma_ball_stays_on_field, on_field, round_over,
    speed_capped, step_hits_paddle, update_ball, Ball, BallState,
};
use crate::config::{
    BALL_MAX_XSPEED, BALL_MAX_YSPEED, BALL_START_XSPEED, BALL_START_YSPEED, BALL_X_LIMIT,
    BALL_Y_LIMIT, CONS_Y, PADDLE_X_OFFSET, SCORE_X_OFFSET, SCORE_Y,
    WIN_CONDITIONS,
};
use crate::geometry::{lemma_point_in_range, Point};
use crate::paddle::{
    lemma_paddle_stays_in_lane, moved_paddle_y, next_frame, update_player, Direction, Player,
};
use crate::scoring::{
    recentred, reset_positions, reset_scoreboard, served, update_scoreboard, Scoreboard,
};

verus! {

broadcast use lemma_point_in_range;

/// Which way the ball was heading when a frame began: `Left` toward the first
/// player's goal line, `Right` for any other heading.
#[derive(Clone, Copy, Debug, PartialEq, Eq, Structural)]
pub enum Side {
    Left,
    Right,
}

/// What a frame of play did.
#[derive(Clone, Copy, Debug, PartialEq, Eq, Structural)]
pub enum FrameOutcome {
    /// The ball flew on.
    Flying,
    /// A paddle sent the ball back.
    Returned,
    /// The ball reached a goal line: a point was counted and the round restarted.
    Missed(Side),
}

/// Who has won the match.
#[derive(Clone, Copy, Debug, PartialEq, Eq, Structural)]
pub enum Winner {
    PlayerOne,
    PlayerTwo,
}

/// Everything the match is played with.
pub struct Game {
    /// The player on the left, with the keys W, S, A, D.
    pub player1: Player,
    /// The player on the right, with the arrow keys.
    pub player2: Player,
    pub ball: Ball,
    pub scoreboard: Scoreboard,
}

/// Whether the ball lies on a goal line.
pub open spec fn at_goal_line(s: BallState) -> bool {
    s.x == -(BALL_X_LIMIT as int) || s.x == BALL_X_LIMIT as int
}

/// The paddle's height after its player's move in a frame.
pub open spec fn paddle_after(p: Player) -> int {
    moved_paddle_y(p.position.spec_y(), p.speed as int, p.direction@)
}

impl Game {
    /// A new match: paddles at mid-height `PADDLE_X_OFFSET` in from the side
    /// walls, the ball at the centre heading left and down at the starting
    /// speeds, and no points scored.
    pub fn new() -> (g: Game)
        ensures
            g.player1.position.spec_x() == -(PADDLE_X_OFFSET as int),
            g.player2.position.spec_x() == PADDLE_X_OFFSET as int,
            g.player1.position.spec_y() == 0,
            g.player2.position.spec_y() == 0,
            g.player1.speed == crate::config::PLAYER_MOVEMENT_SPEED,
            g.player2.speed == crate::config::PLAYER_MOVEMENT_SPEED,
            g.player1.direction@ == seq![Direction::Still, Direction::Still, Direction::Still, Direction::Still],
            g.player2.direction@ == seq![Direction::Still, Direction::Still, Direction::Still, Direction::Still],
            g.player1.current_frame == 0,
            g.player2.current_frame == 0,
            !g.player1.selected,
            !g.player2.selected,
            g.player1.choice_pos == 0,
            g.player2.choice_pos == 0,
            g.ball.state() == (BallState {
                x: 0,
                y: 0,
                vx: BALL_START_XSPEED as int,
                vy: BALL_START_YSPEED as int,
                dir_x: Direction::Left,
                dir_y: Direction::Down,
            }),
            g.scoreboard.p1_score == 0,
            g.scoreboard.p2_score == 0,
            g.scoreboard.p1_s_pos@ == (-(SCORE_X_OFFSET as int), SCORE_Y as int),
            g.scoreboard.p2_s_pos@ == (SCORE_X_OFFSET as int, SCORE_Y as int),
            g.scoreboard.instructions_pos@ == (0int, CONS_Y as int),
            g.in_play(),
    {
        let paddle_x = PADDLE_X_OFFSET as i32;
        let score_x = SCORE_X_OFFSET as i32;
        Game {
            player1: Player::new(-paddle_x),
            player2: Player::new(paddle_x),
            ball: Ball {
                position: Point::new(0, 0),
                velocity: [BALL_START_XSPEED, BALL_START_YSPEED],
                direction_x: Direction::Left,
                direction_y: Direction::Down,
            },
            scoreboard: Scoreboard {
                p1_score: 0,
                p2_score: 0,
                p1_s_pos: Point::new(-score_x, SCORE_Y as i32),
                p2_s_pos: Point::new(score_x, SCORE_Y as i32),
                instructions_pos: Point::new(0, CONS_Y as i32),
            },
        }
    }

    /// Whether the ball is heading toward the first player's goal line.
    pub open spec fn heading_left(self) -> bool {
        self.ball.direction_x == Direction::Left
    }

    /// The ball after this frame's flight, before any restart: it plays
    /// against the first player's paddle when heading left, the second's
    /// otherwise, each paddle where its player has just moved it.
    pub open spec fn flight(self, width: int, height: int) -> BallState {
        if self.heading_left() {
            ball_step(
                self.ball.state(),
                self.player1.position.spec_x(),
                paddle_after(self.player1),
                width,
                height,
            )
        } else {
            ball_step(
                self.ball.state(),
                self.player2.position.spec_x(),
                paddle_after(self.player2),
                width,
                height,
            )
        }
    }

    /// Whether this frame's flight meets the paddle in play.
    pub open spec fn flight_hits_paddle(self, width: int, height: int) -> bool {
        if self.heading_left() {
            step_hits_paddle(
                self.ball.state(),
                self.player1.position.spec_x(),
                paddle_after(self.player1),
                width,
                height,
            )
        } else {
            step_hits_paddle(
                self.ball.state(),
                self.player2.position.spec_x(),
                paddle_after(self.player2),
                width,
                height,
            )
        }
    }

    /// What a frame on a screen of the given size reports.
    pub open spec fn frame_outcome(self, width: int, height: int) -> FrameOutcome {
        let f = self.flight(width, height);
        if at_goal_line(f) {
            FrameOutcome::Missed(if self.heading_left() { Side::Left } else { Side::Right })
        } else if (self.heading_left() && f.dir_x == Direction::Right) || (!self.heading_left()
            && f.dir_x == Direction::Left) {
            FrameOutcome::Returned
        } else {
            FrameOutcome::Flying
        }
    }

    /// The inputs on which a frame computes without overflow: the screen size
    /// fits an `i32`, speeds can be negated, counters and hit speeds can grow
    /// by one, and the score a missed ball adds to can grow by one.
    pub open spec fn frame_allowed(self, width: int, height: int) -> bool {
        let f = self.flight(width, height);
        &&& width <= i32::MAX
        &&& height <= i32::MAX
        &&& self.player1.speed > i32::MIN
        &&& self.player2.speed > i32::MIN
        &&& self.player1.current_frame < i32::MAX
        &&& self.player2.current_frame < i32::MAX
        &&& self.ball.direction_y == Direction::Up ==> self.ball.velocity@[1] > i32::MIN
        &&& self.ball.direction_x == Direction::Left ==> self.ball.velocity@[0] > i32::MIN
        &&& self.flight_hits_paddle(width, height) ==> self.ball.velocity@[0] < i32::MAX
            && self.ball.velocity@[1] < i32::MAX
        &&& at_goal_line(f) ==> if f.dir_x == Direction::Left {
            self.scoreboard.p1_score < u32::MAX
        } else {
            self.scoreboard.p2_score < u32::MAX
        }
    }

    /// Whether the match is in a state play keeps: paddles in their lanes,
    /// the ball on the field with its speeds within their caps, and neither
    /// score past the winning one.
    pub open spec fn in_play(self) -> bool {
        &&& self.player1.in_lane()
        &&& self.player2.in_lane()
        &&& on_field(self.ball.state())
        &&& speed_capped(self.ball.state())
        &&& self.scoreboard.p1_score <= WIN_CONDITIONS
        &&& self.scoreboard.p2_score <= WIN_CONDITIONS
    }

    /// Whether the scoreboard shows neither player at the winning score.
    pub open spec fn undecided(self) -> bool {
        self.scoreboard.p1_score < WIN_CONDITIONS && self.scoreboard.p2_score < WIN_CONDITIONS
    }

    /// Plays one frame on a screen of `width` by `height` pixels: both paddles
    /// move, the ball flies against the paddle of the player it heads toward;
    /// if it reaches a goal line the point is counted (to the first score if
    /// it has turned back left, else to the second) and the round restarts.
    pub fn frame(&mut self, width: u32, height: u32) -> (outcome: FrameOutcome)
        requires
            old(self).frame_allowed(width as int, height as int),
        ensures
            ({
                let f = old(self).flight(width as int, height as int);
                let missed = at_goal_line(f);
                &&& outcome == old(self).frame_outcome(width as int, height as int)
                &&& final(self).ball.state() == if missed { served(f) } else { f }
                &&& final(self).player1.position.spec_x() == old(self).player1.position.spec_x()
                &&& final(self).player2.position.spec_x() == old(self).player2.position.spec_x()
                &&& final(self).player1.position.spec_y() == if missed {
                    0
                } else {
                    paddle_after(old(self).player1)
                }
                &&& final(self).player2.position.spec_y() == if missed {
                    0
                } else {
                    paddle_after(old(self).player2)
                }
                &&& final(self).scoreboard.p1_score == old(self).scoreboard.p1_score + if missed
                    && f.dir_x == Direction::Left {
                    1int
                } else {
                    0int
                }
                &&& final(self).scoreboard.p2_score == old(self).scoreboard.p2_score + if missed
                    && f.dir_x != Direction::Left {
                    1int
                } else {
                    0int
                }
            }),
            final(self).player1.current_frame == next_frame(old(self).player1.current_frame as int),
            final(self).player2.current_frame == next_frame(old(self).player2.current_frame as int),
            final(self).player1.speed == old(self).player1.speed,
            final(self).player2.speed == old(self).player2.speed,
            final(self).player1.direction == old(self).player1.direction,
            final(self).player2.direction == old(self).player2.direction,
            final(self).player1.selected == old(self).player1.selected,
            final(self).player2.selected == old(self).player2.selected,
            final(self).player1.choice_pos == old(self).player1.choice_pos,
            final(self).player2.choice_pos == old(self).player2.choice_pos,
            final(self).scoreboard.p1_s_pos == old(self).scoreboard.p1_s_pos,
            final(self).scoreboard.p2_s_pos == old(self).scoreboard.p2_s_pos,
            final(self).scoreboard.instructions_pos == old(self).scoreboard.instructions_pos,
            final(self).scoreboard.p1_score + final(self).scoreboard.p2_score
                == old(self).scoreboard.p1_score + old(self).scoreboard.p2_score + if outcome
                is Missed {
                1int
            } else {
                0int
            },
            old(self).in_play() && old(self).undecided() ==> final(self).in_play(),
            on_field(old(self).ball.state()) && old(self).ball.state().vx > 0 && (
            old(self).ball.direction_x == Direction::Left || old(self).ball.direction_x
                == Direction::Right) ==> {
                let f = old(self).flight(width as int, height as int);
                &&& f.x == -(BALL_X_LIMIT as int) ==> final(self).scoreboard.p2_score == old(self).scoreboard.p2_score + 1 && final(self).scoreboard.p1_score == old(self).scoreboard.p1_score
                &&& f.x == BALL_X_LIMIT as int ==> final(self).scoreboard.p1_score == old(self).scoreboard.p1_score + 1 && final(self).scoreboard.p2_score == old(self).scoreboard.p2_score
            },
            outcome == FrameOutcome::Returned <==> old(self).flight_hits_paddle(
                width as int,
                height as int,
            ) && !at_goal_line(old(self).flight(width as int, height as int)),
            outcome == FrameOutcome::Returned ==> final(self).ball.direction_x != old(self).ball.direction_x,
            outcome == FrameOutcome::Flying ==> final(self).ball.direction_x == old(self).ball.direction_x,
    {
        proof {
            lemma_outcome_follows_the_flight(*old(self), width as int, height as int);
            if on_field(old(self).ball.state()) && old(self).ball.state().vx > 0 && (
            old(self).ball.direction_x == Direction::Left || old(self).ball.direction_x
                == Direction::Right) {
                lemma_goal_line_scores_for_the_other_player(*old(self), width as int, height as int);
            }
        }
        update_player(&mut self.player1);
        update_player(&mut self.player2);
        let outcome = match self.ball.direction_x {
            Direction::Left => {
                update_ball(&mut self.ball, &self.player1, width, height);
                if round_over(&self.ball) {
                    update_scoreboard(&self.ball, &mut self.scoreboard);
                    reset_positions(&mut self.player1, &mut self.player2, &mut self.ball);
                    FrameOutcome::Missed(Side::Left)
                } else {
                    match self.ball.direction_x {
                        Direction::Right => FrameOutcome::Returned,
                        _ => FrameOutcome::Flying,
                    }
                }
            },
            _ => {
                update_ball(&mut self.ball, &self.player2, width, height);
                if round_over(&self.ball) {
                    update_scoreboard(&self.ball, &mut self.scoreboard);
                    reset_positions(&mut self.player1, &mut self.player2, &mut self.ball);
                    FrameOutcome::Missed(Side::Right)
                } else {
                    match self.ball.direction_x {
                        Direction::Left => FrameOutcome::Returned,
                        _ => FrameOutcome::Flying,
                    }
                }
            },
        };
        proof {
            let ghost g = *old(self);
            if g.in_play() && g.undecided() {
                lemma_paddle_stays_in_lane(
                    g.player1.position.spec_y(),
                    g.player1.speed as int,
                    g.player1.direction@,
                );
                lemma_paddle_stays_in_lane(
                    g.player2.position.spec_y(),
                    g.player2.speed as int,
                    g.player2.direction@,
                );
                if g.heading_left() {
                    lemma_ball_stays_on_field(g.ball.state(), g.player1.position.spec_x(), paddle_after(g.player1), width as int, height as int);
                    lemma_ball_speed_capped(g.ball.state(), g.player1.position.spec_x(), paddle_after(g.player1), width as int, height as int);
                } else {
                    lemma_ball_stays_on_field(g.ball.state(), g.player2.position.spec_x(), paddle_after(g.player2), width as int, height as int);
                    lemma_ball_speed_capped(g.ball.state(), g.player2.position.spec_x(), paddle_after(g.player2), width as int, height as int);
                }
            }
        }
        outcome
    }

    /// Whether the match is in play and undecided, which lets a frame be
    /// played on any screen whose size fits an `i32`.
    pub fn ready_for_frame(&self) -> (ready: bool)
        ensures
            ready == (self.in_play() && self.undecided()),
    {
        let x_limit = BALL_X_LIMIT as i32;
        let y_limit = BALL_Y_LIMIT as i32;
        let (bx, by) = (self.ball.position.x(), self.ball.position.y());
        let (vx, vy) = (self.ball.velocity[0], self.ball.velocity[1]);
        self.player1.is_in_lane() && self.player2.is_in_lane() && -x_limit <= bx && bx
            <= x_limit && -y_limit <= by && by <= y_limit && 0 <= vx && vx <= BALL_MAX_XSPEED
            && 0 <= vy && vy <= BALL_MAX_YSPEED && self.scoreboard.p1_score < WIN_CONDITIONS
            && self.scoreboard.p2_score < WIN_CONDITIONS
    }

    /// The player whose score has reached the winning score, the first
    /// player taking precedence.
    pub fn match_winner(&self) -> (w: Option<Winner>)
        ensures
            w == if self.scoreboard.p1_score == WIN_CONDITIONS {
                Some(Winner::PlayerOne)
            } else if self.scoreboard.p2_score == WIN_CONDITIONS {
                Some(Winner::PlayerTwo)
            } else {
                None
            },
    {
        if self.scoreboard.p1_score == WIN_CONDITIONS {
            Some(Winner::PlayerOne)
        } else if self.scoreboard.p2_score == WIN_CONDITIONS {
            Some(Winner::PlayerTwo)
        } else {
            None
        }
    }

    /// Starts the match over: paddles to mid-height, the ball served from
    /// the centre, both scores back to zero.
    pub fn restart(&mut self)
        ensures
            recentred(&old(self).player1, &final(self).player1),
            recentred(&old(self).player2, &final(self).player2),
            final(self).ball.state() == served(old(self).ball.state()),
            final(self).scoreboard.p1_score == 0,
            final(self).scoreboard.p2_score == 0,
            final(self).scoreboard.p1_s_pos == old(self).scoreboard.p1_s_pos,
            final(self).scoreboard.p2_s_pos == old(self).scoreboard.p2_s_pos,
            final(self).scoreboard.instructions_pos == old(self).scoreboard.instructions_pos,
            old(self).in_play() ==> final(self).in_play(),
    {
        reset_positions(&mut self.player1, &mut self.player2, &mut self.ball);
        reset_scoreboard(&mut self.scoreboard);
    }
}

/// While the match is in play and undecided, a frame can be played on any
/// screen whose size fits an `i32`: nothing in it overflows.
pub proof fn lemma_play_is_allowed(g: Game, width: int, height: int)
    requires
        g.in_play(),
        g.undecided(),
        0 <= width <= i32::MAX,
        0 <= height <= i32::MAX,
    ensures
        g.frame_allowed(width, height),
{
}

/// A frame reports a return exactly when the ball, heading left or right,
/// ends its flight on the paddle in play without reaching a goal line; it
/// reports the ball flying on exactly when neither a paddle nor a goal line
/// was reached, and a miss exactly when a goal line was reached.
pub proof fn lemma_outcome_follows_the_flight(g: Game, width: int, height: int)
    ensures
        ({
            let f = g.flight(width, height);
            let hit = g.flight_hits_paddle(width, height);
            &&& (g.frame_outcome(width, height) == FrameOutcome::Returned) == (hit && !at_goal_line(f))
            &&& (g.frame_outcome(width, height) == FrameOutcome::Flying) == (!hit && !at_goal_line(f))
            &&& (g.frame_outcome(width, height) is Missed) == at_goal_line(f)
            &&& hit ==> g.ball.direction_x == Direction::Left || g.ball.direction_x == Direction::Right
        }),
{
}

/// A ball on the field that moves left or right reaches the left goal line
/// only heading back right and the right goal line only heading back left:
/// so a miss on the left counts for the second player and a miss on the
/// right for the first.
pub proof fn lemma_goal_line_scores_for_the_other_player(g: Game, width: int, height: int)
    requires
        on_field(g.ball.state()),
        g.ball.state().vx > 0,
        g.ball.direction_x == Direction::Left || g.ball.direction_x == Direction::Right,
    ensures
        ({
            let f = g.flight(width, height);
            &&& f.x == -(BALL_X_LIMIT as int) ==> f.dir_x != Direction::Left
            &&& f.x == BALL_X_LIMIT as int ==> f.dir_x == Direction::Left
        }),
{
}

} // verus!
