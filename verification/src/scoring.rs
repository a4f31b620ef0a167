//! The scoreboard, and putting the pieces back for a new round or match.
use vstd::prelude::*;
use crate::ball::{Ball, BallState};
use crate::config::{BALL_START_XSPEED, BALL_START_YSPEED};
use crate::geometry::{lemma_point_in_range, Point};
use crate::paddle::{Direction, Player};

verus! {

broadcast use lemma_point_in_range;

/// The two scores, and where the scores and the banner are drawn.
pub struct Scoreboard {
    pub p1_score: u32,
    pub p2_score: u32,
    pub p1_s_pos: Point,
    pub p2_s_pos: Point,
    pub instructions_pos: Point,
}

/// Whether `update_scoreboard` can count the point the ball's direction gives.
pub open spec fn can_count(ball: &Ball, scoreboard: &Scoreboard) -> bool {
    if ball.direction_x == Direction::Left {
        scoreboard.p1_score < u32::MAX
    } else {
        scoreboard.p2_score < u32::MAX
    }
}

/// Counts the point that ends a round: it goes to the first score when the
/// ball is heading left, to the second otherwise.
pub fn update_scoreboard(ball: &Ball, scoreboard: &mut Scoreboard)
    requires
        can_count(ball, old(scoreboard)),
    ensures
        ball.direction_x == Direction::Left ==> final(scoreboard).p1_score == old(scoreboard).p1_score + 1
            && final(scoreboard).p2_score == old(scoreboard).p2_score,
        ball.direction_x != Direction::Left ==> final(scoreboard).p2_score == old(scoreboard).p2_score + 1
            && final(scoreboard).p1_score == old(scoreboard).p1_score,
        final(scoreboard).p1_s_pos == old(scoreboard).p1_s_pos,
        final(scoreboard).p2_s_pos == old(scoreboard).p2_s_pos,
        final(scoreboard).instructions_pos == old(scoreboard).instructions_pos,
{
    match ball.direction_x {
        Direction::Left => {
            scoreboard.p1_score = scoreboard.p1_score + 1;
        },
        _ => {
            scoreboard.p2_score = scoreboard.p2_score + 1;
        },
    }
}

/// The ball as a round starts: at the centre, at the starting speeds, keeping
/// its directions.
pub open spec fn served(s: BallState) -> BallState {
    BallState { x: 0, y: 0, vx: BALL_START_XSPEED as int, vy: BALL_START_YSPEED as int, ..s }
}

/// Whether `after` is `before` with its paddle moved to height 0 and nothing else changed.
pub open spec fn recentred(before: &Player, after: &Player) -> bool {
    &&& after.position.spec_x() == before.position.spec_x()
    &&& after.position.spec_y() == 0
    &&& after.speed == before.speed
    &&& after.direction == before.direction
    &&& after.current_frame == before.current_frame
    &&& after.selected == before.selected
    &&& after.choice_pos == before.choice_pos
}

/// Puts both paddles back to mid-height and serves the ball from the centre at
/// the starting speeds; the ball keeps its directions.
pub fn reset_positions(player1: &mut Player, player2: &mut Player, ball: &mut Ball)
    ensures
        recentred(old(player1), final(player1)),
        recentred(old(player2), final(player2)),
        final(ball).state() == served(old(ball).state()),
{
    player1.position.set_y(0);
    player2.position.set_y(0);
    ball.position = Point::new(0, 0);
    ball.velocity = [BALL_START_XSPEED, BALL_START_YSPEED];
}

/// Sets both scores back to zero.
pub fn reset_scoreboard(scoreboard: &mut Scoreboard)
    ensures
        final(scoreboard).p1_score == 0,
        final(scoreboard).p2_score == 0,
        final(scoreboard).p1_s_pos == old(scoreboard).p1_s_pos,
        final(scoreboard).p2_s_pos == old(scoreboard).p2_s_pos,
        final(scoreboard).instructions_pos == old(scoreboard).instructions_pos,
{
    scoreboard.p1_score = 0;
    scoreboard.p2_score = 0;
}

/// A served ball stands at the centre of the field with speeds 4 across
/// and 2 down or up, and keeps both its headings.
pub proof fn lemma_serve_restarts_the_ball(s: BallState)
    ensures
        served(s).x == 0 && served(s).y == 0,
        served(s).vx == 4 && served(s).vy == 2,
        served(s).dir_x == s.dir_x && served(s).dir_y == s.dir_y,
{
}

} // verus!
