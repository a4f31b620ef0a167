use pong::ball::{ball_deflected, round_over, update_ball, Ball};
use pong::game::{FrameOutcome, Game, Side, Winner};
use pong::geometry::Point;
use pong::paddle::{update_player, Direction, Player};
use pong::scoring::{reset_positions, reset_scoreboard, update_scoreboard};

fn ball_at(x: i32, y: i32, vx: i32, vy: i32, dir_x: Direction, dir_y: Direction) -> Ball {
    Ball { position: Point::new(x, y), velocity: [vx, vy], direction_x: dir_x, direction_y: dir_y }
}

fn player_at(x: i32, y: i32, keys: [Direction; 4]) -> Player {
    let mut p = Player::new(x);
    p.position = Point::new(x, y);
    p.direction = keys;
    p
}

const STILL: Direction = Direction::Still;

#[test]
fn new_player_holds_nothing() {
    let p = Player::new(-300);
    assert_eq!((p.position.x(), p.position.y()), (-300, 0));
    assert_eq!(p.speed, 10);
    assert_eq!(p.direction, [STILL; 4]);
    assert_eq!(p.current_frame, 0);
    assert!(!p.selected);
    assert_eq!(p.choice_pos, 0);
}

#[test]
fn update_player_moves_up_by_speed() {
    let mut p = player_at(-300, 0, [Direction::Up, STILL, STILL, STILL]);
    update_player(&mut p);
    assert_eq!((p.position.x(), p.position.y()), (-300, -10));
    assert_eq!(p.current_frame, 1);
}

#[test]
fn update_player_stops_at_the_walls() {
    let mut p = player_at(300, -255, [Direction::Up, STILL, STILL, STILL]);
    update_player(&mut p);
    assert_eq!(p.position.y(), -260);
    let mut q = player_at(300, 255, [STILL, Direction::Down, STILL, STILL]);
    update_player(&mut q);
    assert_eq!(q.position.y(), 260);
}

#[test]
fn update_player_moves_each_way_once_in_slot_order() {
    let mut up_first = player_at(0, -258, [Direction::Up, Direction::Down, STILL, STILL]);
    update_player(&mut up_first);
    assert_eq!(up_first.position.y(), -250);
    let mut down_first = player_at(0, -258, [Direction::Down, Direction::Up, STILL, STILL]);
    update_player(&mut down_first);
    assert_eq!(down_first.position.y(), -258);
    let mut twice = player_at(0, 0, [Direction::Up, STILL, Direction::Up, STILL]);
    update_player(&mut twice);
    assert_eq!(twice.position.y(), -10);
}

#[test]
fn update_player_ignores_sideways_and_idle_slots() {
    let mut p = player_at(0, 17, [Direction::Left, Direction::Right, STILL, STILL]);
    update_player(&mut p);
    assert_eq!(p.position.y(), 17);
}

#[test]
fn update_player_cycles_the_animation_frame() {
    let mut p = player_at(0, 0, [STILL; 4]);
    p.current_frame = 11;
    update_player(&mut p);
    assert_eq!(p.current_frame, 0);
    p.current_frame = -5;
    update_player(&mut p);
    assert_eq!(p.current_frame, -4);
    p.current_frame = -13;
    update_player(&mut p);
    assert_eq!(p.current_frame, 0);
}

#[test]
fn paddle_stays_in_lane_over_many_frames() {
    let mut p = player_at(0, 0, [Direction::Up, STILL, STILL, STILL]);
    for _ in 0..100 {
        update_player(&mut p);
        assert!(p.position.y() >= -260 && p.position.y() <= 260);
        assert!(p.current_frame >= 0 && p.current_frame < 12);
    }
    assert_eq!(p.position.y(), -260);
}

#[test]
fn ball_flies_by_its_speeds() {
    let mut b = ball_at(0, 0, 4, 2, Direction::Left, Direction::Down);
    let p1 = Player::new(-300);
    update_ball(&mut b, &p1, 800, 600);
    assert_eq!((b.position.x(), b.position.y()), (-4, 2));
    assert_eq!(b.velocity, [4, 2]);
    assert_eq!((b.direction_x, b.direction_y), (Direction::Left, Direction::Down));
}

#[test]
fn ball_bounces_off_top_and_bottom_walls() {
    let p = Player::new(-300);
    let mut past_top = ball_at(0, -294, 4, 2, Direction::Right, Direction::Up);
    update_ball(&mut past_top, &p, 800, 600);
    assert_eq!(past_top.position.y(), -295);
    assert_eq!(past_top.direction_y, Direction::Down);
    let mut onto_top = ball_at(0, -293, 4, 2, Direction::Right, Direction::Up);
    update_ball(&mut onto_top, &p, 800, 600);
    assert_eq!(onto_top.position.y(), -295);
    assert_eq!(onto_top.direction_y, Direction::Up);
    let mut past_bottom = ball_at(0, 294, 4, 2, Direction::Right, Direction::Down);
    update_ball(&mut past_bottom, &p, 800, 600);
    assert_eq!(past_bottom.position.y(), 295);
    assert_eq!(past_bottom.direction_y, Direction::Up);
    let mut onto_bottom = ball_at(0, 293, 4, 2, Direction::Right, Direction::Down);
    update_ball(&mut onto_bottom, &p, 800, 600);
    assert_eq!(onto_bottom.direction_y, Direction::Down);
}

#[test]
fn ball_turns_round_at_the_goal_lines() {
    let p = Player::new(-300);
    let mut left = ball_at(-393, 0, 4, 2, Direction::Left, Direction::Down);
    update_ball(&mut left, &p, 800, 600);
    assert_eq!(left.position.x(), -395);
    assert_eq!(left.direction_x, Direction::Right);
    assert!(round_over(&left));
    let mut exact = ball_at(-391, 0, 4, 2, Direction::Left, Direction::Down);
    update_ball(&mut exact, &p, 800, 600);
    assert_eq!(exact.position.x(), -395);
    assert_eq!(exact.direction_x, Direction::Right);
    let mut right = ball_at(391, 0, 4, 2, Direction::Right, Direction::Down);
    update_ball(&mut right, &p, 800, 600);
    assert_eq!(right.position.x(), 395);
    assert_eq!(right.direction_x, Direction::Left);
    assert!(round_over(&right));
}

#[test]
fn ball_is_returned_faster_by_a_paddle() {
    let p1 = Player::new(-300);
    let mut b = ball_at(-290, 5, 4, 2, Direction::Left, Direction::Down);
    update_ball(&mut b, &p1, 800, 600);
    assert_eq!((b.position.x(), b.position.y()), (-294, 7));
    assert_eq!(b.direction_x, Direction::Right);
    assert_eq!(b.velocity, [5, 3]);
    let p2 = Player::new(300);
    let mut capped = ball_at(290, 0, 13, 7, Direction::Right, Direction::Up);
    update_ball(&mut capped, &p2, 800, 600);
    assert_eq!(capped.direction_x, Direction::Left);
    assert_eq!(capped.velocity, [13, 7]);
}

#[test]
fn ball_deflected_matches_the_paddle_rectangle() {
    let p = Player::new(-300);
    let hit = |x: i32, y: i32| ball_deflected(&ball_at(x, y, 4, 2, Direction::Left, Direction::Down), &p, 800, 600);
    assert!(hit(-307, -40));
    assert!(hit(-293, 39));
    assert!(!hit(-292, 0));
    assert!(!hit(-308, 0));
    assert!(!hit(-300, 40));
    assert!(!hit(-300, -41));
    let odd = ball_deflected(&ball_at(-307, -40, 4, 2, Direction::Left, Direction::Down), &p, 801, 601);
    assert!(odd);
}

#[test]
fn round_over_only_on_goal_lines() {
    assert!(round_over(&ball_at(395, 0, 4, 2, Direction::Left, Direction::Down)));
    assert!(round_over(&ball_at(-395, 10, 4, 2, Direction::Left, Direction::Down)));
    assert!(!round_over(&ball_at(394, 0, 4, 2, Direction::Left, Direction::Down)));
    assert!(!round_over(&ball_at(0, 0, 4, 2, Direction::Left, Direction::Down)));
}

#[test]
fn update_scoreboard_counts_by_heading() {
    let mut g = Game::new();
    let left = ball_at(0, 0, 4, 2, Direction::Left, Direction::Down);
    update_scoreboard(&left, &mut g.scoreboard);
    assert_eq!((g.scoreboard.p1_score, g.scoreboard.p2_score), (1, 0));
    let right = ball_at(0, 0, 4, 2, Direction::Right, Direction::Down);
    update_scoreboard(&right, &mut g.scoreboard);
    assert_eq!((g.scoreboard.p1_score, g.scoreboard.p2_score), (1, 1));
    let other = ball_at(0, 0, 4, 2, Direction::Up, Direction::Down);
    update_scoreboard(&other, &mut g.scoreboard);
    assert_eq!((g.scoreboard.p1_score, g.scoreboard.p2_score), (1, 2));
    reset_scoreboard(&mut g.scoreboard);
    assert_eq!((g.scoreboard.p1_score, g.scoreboard.p2_score), (0, 0));
    assert_eq!((g.scoreboard.p1_s_pos.x(), g.scoreboard.p1_s_pos.y()), (-200, 270));
}

#[test]
fn reset_positions_recentres_and_serves() {
    let mut p1 = player_at(-300, 120, [Direction::Up, STILL, STILL, STILL]);
    let mut p2 = player_at(300, -60, [STILL; 4]);
    let mut b = ball_at(-395, 40, 11, 6, Direction::Right, Direction::Up);
    reset_positions(&mut p1, &mut p2, &mut b);
    assert_eq!((p1.position.x(), p1.position.y()), (-300, 0));
    assert_eq!((p2.position.x(), p2.position.y()), (300, 0));
    assert_eq!(p1.direction, [Direction::Up, STILL, STILL, STILL]);
    assert_eq!((b.position.x(), b.position.y()), (0, 0));
    assert_eq!(b.velocity, [4, 2]);
    assert_eq!((b.direction_x, b.direction_y), (Direction::Right, Direction::Up));
}

#[test]
fn new_game_starts_as_the_original_match() {
    let g = Game::new();
    assert_eq!((g.player1.position.x(), g.player1.position.y()), (-300, 0));
    assert_eq!((g.player2.position.x(), g.player2.position.y()), (300, 0));
    assert_eq!((g.ball.position.x(), g.ball.position.y()), (0, 0));
    assert_eq!(g.ball.velocity, [4, 2]);
    assert_eq!((g.ball.direction_x, g.ball.direction_y), (Direction::Left, Direction::Down));
    assert_eq!((g.scoreboard.p1_score, g.scoreboard.p2_score), (0, 0));
    assert_eq!((g.scoreboard.p2_s_pos.x(), g.scoreboard.p2_s_pos.y()), (200, 270));
    assert_eq!((g.scoreboard.instructions_pos.x(), g.scoreboard.instructions_pos.y()), (0, 275));
    assert_eq!(g.match_winner(), None);
}

#[test]
fn frame_moves_paddles_then_ball() {
    let mut g = Game::new();
    g.player1.direction = [STILL, Direction::Down, STILL, STILL];
    let outcome = g.frame(800, 600);
    assert_eq!(outcome, FrameOutcome::Flying);
    assert_eq!(g.player1.position.y(), 10);
    assert_eq!((g.ball.position.x(), g.ball.position.y()), (-4, 2));
    assert_eq!(g.player1.current_frame, 1);
    assert_eq!(g.player2.current_frame, 1);
}

#[test]
fn frame_counts_a_miss_on_the_left_for_the_second_player() {
    let mut g = Game::new();
    g.ball = ball_at(-393, 0, 9, 5, Direction::Left, Direction::Down);
    g.player1.position = Point::new(-300, 200);
    let outcome = g.frame(800, 600);
    assert_eq!(outcome, FrameOutcome::Missed(Side::Left));
    assert_eq!((g.scoreboard.p1_score, g.scoreboard.p2_score), (0, 1));
    assert_eq!((g.ball.position.x(), g.ball.position.y()), (0, 0));
    assert_eq!(g.ball.velocity, [4, 2]);
    assert_eq!(g.ball.direction_x, Direction::Right);
    assert_eq!(g.player1.position.y(), 0);
}

#[test]
fn frame_counts_a_miss_on_the_right_for_the_first_player() {
    let mut g = Game::new();
    g.ball = ball_at(393, 0, 4, 2, Direction::Right, Direction::Up);
    g.player2.position = Point::new(300, -200);
    let outcome = g.frame(800, 600);
    assert_eq!(outcome, FrameOutcome::Missed(Side::Right));
    assert_eq!((g.scoreboard.p1_score, g.scoreboard.p2_score), (1, 0));
    assert_eq!(g.ball.direction_x, Direction::Left);
}

#[test]
fn frame_reports_a_return() {
    let mut g = Game::new();
    g.ball = ball_at(-290, 5, 4, 2, Direction::Left, Direction::Down);
    assert_eq!(g.frame(800, 600), FrameOutcome::Returned);
    assert_eq!(g.ball.velocity, [5, 3]);
    let mut h = Game::new();
    h.ball = ball_at(290, 5, 4, 2, Direction::Right, Direction::Down);
    assert_eq!(h.frame(800, 600), FrameOutcome::Returned);
    assert_eq!(h.ball.direction_x, Direction::Left);
}

#[test]
fn match_winner_at_the_winning_score() {
    let mut g = Game::new();
    g.scoreboard.p1_score = 6;
    assert_eq!(g.match_winner(), Some(Winner::PlayerOne));
    g.scoreboard.p2_score = 6;
    assert_eq!(g.match_winner(), Some(Winner::PlayerOne));
    g.scoreboard.p1_score = 5;
    assert_eq!(g.match_winner(), Some(Winner::PlayerTwo));
    g.scoreboard.p2_score = 5;
    assert_eq!(g.match_winner(), None);
    g.scoreboard.p2_score = 7;
    assert_eq!(g.match_winner(), None);
}

#[test]
fn restart_clears_the_scores_and_serves() {
    let mut g = Game::new();
    g.scoreboard.p2_score = 6;
    g.ball = ball_at(100, 100, 12, 6, Direction::Right, Direction::Up);
    g.restart();
    assert_eq!((g.scoreboard.p1_score, g.scoreboard.p2_score), (0, 0));
    assert_eq!((g.ball.position.x(), g.ball.position.y()), (0, 0));
    assert_eq!(g.ball.velocity, [4, 2]);
}

#[test]
fn a_long_match_stays_in_play() {
    let mut g = Game::new();
    let mut total = 0;
    for i in 0..20000u32 {
        g.player1.direction = if (i / 50) % 2 == 0 { [Direction::Up, STILL, STILL, STILL] } else { [STILL, Direction::Down, STILL, STILL] };
        let before = g.scoreboard.p1_score + g.scoreboard.p2_score;
        let outcome = g.frame(800, 600);
        let after = g.scoreboard.p1_score + g.scoreboard.p2_score;
        match outcome {
            FrameOutcome::Missed(_) => assert_eq!(after, before + 1),
            _ => assert_eq!(after, before),
        }
        let (x, y) = (g.ball.position.x(), g.ball.position.y());
        assert!(x >= -395 && x <= 395 && y >= -295 && y <= 295);
        assert!(g.ball.velocity[0] >= 4 && g.ball.velocity[0] <= 13);
        assert!(g.ball.velocity[1] >= 2 && g.ball.velocity[1] <= 7);
        assert!(g.player1.position.y().abs() <= 260);
        if g.match_winner().is_some() {
            total += 1;
            g.restart();
        }
        assert!(g.scoreboard.p1_score < 6 && g.scoreboard.p2_score < 6);
    }
    assert!(total > 0);
}

#[test]
fn ready_for_frame_while_in_play_and_undecided() {
    let mut g = Game::new();
    assert!(g.ready_for_frame());
    g.scoreboard.p2_score = 6;
    assert!(!g.ready_for_frame());
    g.scoreboard.p2_score = 5;
    assert!(g.ready_for_frame());
    g.ball.velocity = [14, 2];
    assert!(!g.ready_for_frame());
    g.ball.velocity = [13, 7];
    g.player1.position = Point::new(-300, 261);
    assert!(!g.ready_for_frame());
    g.player1.position = Point::new(-300, -260);
    g.player2.current_frame = 12;
    assert!(!g.ready_for_frame());
    g.player2.current_frame = 11;
    g.ball.position = Point::new(-396, 0);
    assert!(!g.ready_for_frame());
    g.ball.position = Point::new(-395, 295);
    assert!(g.ready_for_frame());
}

#[test]
fn ball_without_a_heading_does_not_move_that_way() {
    let p = Player::new(-300);
    let mut b = ball_at(10, 20, 4, 2, Direction::Still, Direction::Left);
    update_ball(&mut b, &p, 800, 600);
    assert_eq!((b.position.x(), b.position.y()), (10, 20));
    assert_eq!((b.direction_x, b.direction_y), (Direction::Still, Direction::Left));
}

#[test]
fn ball_deflected_near_the_clamping_bound() {
    let p = player_at(pong::geometry::POSITION_MAX, 0, [STILL; 4]);
    let b = ball_at(pong::geometry::POSITION_MAX, 0, 4, 2, Direction::Right, Direction::Down);
    assert!(ball_deflected(&b, &p, 800, 600));
    let far = ball_at(pong::geometry::POSITION_MAX - 300, 0, 4, 2, Direction::Right, Direction::Down);
    assert!(ball_deflected(&far, &p, 800, 600));
}
