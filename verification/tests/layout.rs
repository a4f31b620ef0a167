use pong::game::Game;
use pong::geometry::Rect;
use pong::layout::{char_select_layout, scene_layout, select_screen_fits};

fn parts(r: &Rect) -> (i32, i32, u32, u32) {
    (r.x(), r.y(), r.width(), r.height())
}

#[test]
fn scene_layout_of_a_new_match() {
    let g = Game::new();
    let l = scene_layout(&g, 800, 600);
    assert_eq!(parts(&l.banner), (300, 550, 200, 50));
    assert_eq!(parts(&l.p1_score), (185, 540, 30, 60));
    assert_eq!(parts(&l.p2_score), (585, 540, 30, 60));
    assert_eq!(parts(&l.paddle1), (93, 260, 15, 80));
    assert_eq!(parts(&l.paddle2), (693, 260, 15, 80));
    assert_eq!(parts(&l.ball), (395, 295, 10, 10));
    assert_eq!(parts(&l.ball_sprite), (385, 285, 30, 30));
    assert_eq!(parts(&l.portrait1), (60, 275, 50, 50));
    assert_eq!(parts(&l.portrait2), (690, 275, 50, 50));
}

#[test]
fn char_select_layout_marks_both_cursors() {
    let mut g = Game::new();
    g.player1.choice_pos = -1;
    g.player2.choice_pos = 2;
    let l = char_select_layout(&g.player1, &g.player2, 800, 600);
    let xs: Vec<i32> = l.icons.iter().map(|r| r.x()).collect();
    assert_eq!(xs, vec![55, 215, 375, 535, 695]);
    for r in &l.icons {
        assert_eq!((r.y(), r.width(), r.height()), (275, 50, 50));
    }
    let first = l.first.expect("first cursor on a character");
    assert_eq!(first.character, 1);
    assert_eq!(parts(&first.selector), (195, 255, 50, 50));
    assert_eq!(parts(&first.portrait), (150, 100, 100, 100));
    let second = l.second.expect("second cursor on a character");
    assert_eq!(second.character, 4);
    assert_eq!(parts(&second.selector), (715, 295, 50, 50));
    assert_eq!(parts(&second.portrait), (550, 400, 100, 100));
}

#[test]
fn char_select_layout_without_a_cursor_on_a_character() {
    let mut g = Game::new();
    g.player1.choice_pos = 7;
    g.player2.choice_pos = -3;
    let l = char_select_layout(&g.player1, &g.player2, 800, 600);
    assert_eq!(l.icons.len(), 5);
    assert!(l.first.is_none());
    assert!(l.second.is_none());
}

#[test]
fn select_screen_fits_checks_the_portrait_arithmetic() {
    assert!(select_screen_fits(0, 800, 600));
    assert!(!select_screen_fits(0, 800_000_000, 600));
    assert!(select_screen_fits(5, 800_000_000, 600));
    assert!(!select_screen_fits(5, 3_000_000_000, 600));
    assert!(select_screen_fits(2, 715_827_882, 715_827_882));
    assert!(!select_screen_fits(2, 715_827_883, 10));
}
