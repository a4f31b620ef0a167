use pong::cues::character_name;
use pong::game::Game;
use pong::input::{Control, InputEvent, Key};
use pong::paddle::Direction;
use pong::session::{character_index, GameStage, Gradient, Response, Session};

fn down(key: Key) -> InputEvent {
    InputEvent::KeyDown { key, repeat: false }
}

fn up(key: Key) -> InputEvent {
    InputEvent::KeyUp { key, repeat: false }
}

const STILL: Direction = Direction::Still;

#[test]
fn quit_on_close_or_escape() {
    let mut g = Game::new();
    assert_eq!(g.handle_event(InputEvent::Quit), Control::Quit);
    assert_eq!(g.handle_event(InputEvent::KeyDown { key: Key::Escape, repeat: true }), Control::Quit);
    assert_eq!(g.handle_event(down(Key::Escape)), Control::Quit);
    assert_eq!(g.handle_event(up(Key::Escape)), Control::Continue);
    assert_eq!(g.handle_event(InputEvent::Other), Control::Continue);
}

#[test]
fn arrows_drive_the_second_player() {
    let mut g = Game::new();
    g.handle_event(down(Key::Up));
    g.handle_event(down(Key::Down));
    g.handle_event(down(Key::Left));
    g.handle_event(down(Key::Right));
    assert_eq!(g.player2.direction, [Direction::Up, Direction::Down, Direction::Up, Direction::Down]);
    assert_eq!(g.player1.direction, [STILL; 4]);
    g.handle_event(up(Key::Down));
    g.handle_event(up(Key::Left));
    assert_eq!(g.player2.direction, [Direction::Up, STILL, STILL, Direction::Down]);
}

#[test]
fn wasd_drive_the_first_player() {
    let mut g = Game::new();
    g.handle_event(down(Key::W));
    g.handle_event(down(Key::S));
    g.handle_event(down(Key::A));
    g.handle_event(down(Key::D));
    assert_eq!(g.player1.direction, [Direction::Up, Direction::Down, Direction::Up, Direction::Down]);
    assert_eq!(g.player2.direction, [STILL; 4]);
    g.handle_event(up(Key::W));
    assert_eq!(g.player1.direction, [STILL, Direction::Down, Direction::Up, Direction::Down]);
}

#[test]
fn repeats_and_other_keys_change_nothing() {
    let mut g = Game::new();
    g.handle_event(InputEvent::KeyDown { key: Key::W, repeat: true });
    g.handle_event(down(Key::Z));
    g.handle_event(down(Key::Other));
    g.handle_event(down(Key::Return));
    assert_eq!(g.player1.direction, [STILL; 4]);
    assert!(!g.player1.selected);
    g.handle_event(down(Key::Up));
    g.handle_event(InputEvent::KeyUp { key: Key::Up, repeat: true });
    assert_eq!(g.player2.direction[0], Direction::Up);
}

#[test]
fn gradient_sweeps_up_and_down() {
    let mut gr = Gradient::new();
    assert_eq!(gr.color(), (0, 120, 255));
    gr.step();
    assert_eq!((gr.level, gr.falling), (1, false));
    for _ in 1..255 {
        gr.step();
    }
    assert_eq!((gr.level, gr.falling), (255, true));
    assert_eq!(gr.color(), (255, 120, 0));
    gr.step();
    assert_eq!((gr.level, gr.falling), (254, true));
    for _ in 0..254 {
        gr.step();
    }
    assert_eq!((gr.level, gr.falling), (0, false));
}

#[test]
fn cursors_move_within_bounds_until_locked() {
    let mut s = Session::new();
    for _ in 0..4 {
        s.handle_event(down(Key::A));
    }
    assert_eq!(s.game.player1.choice_pos, -2);
    s.handle_event(down(Key::D));
    assert_eq!(s.game.player1.choice_pos, -1);
    assert_eq!(s.game.player1.direction, [STILL, STILL, Direction::Up, Direction::Down]);
    for _ in 0..5 {
        s.handle_event(down(Key::Right));
    }
    assert_eq!(s.game.player2.choice_pos, 2);
    s.handle_event(down(Key::Z));
    assert!(s.game.player1.selected);
    s.handle_event(down(Key::A));
    assert_eq!(s.game.player1.choice_pos, -1);
    s.handle_event(down(Key::X));
    assert!(!s.game.player1.selected);
    s.handle_event(down(Key::A));
    assert_eq!(s.game.player1.choice_pos, -2);
    s.handle_event(down(Key::J));
    s.handle_event(down(Key::Left));
    assert_eq!(s.game.player2.choice_pos, 2);
    s.handle_event(down(Key::K));
    s.handle_event(down(Key::Left));
    assert_eq!(s.game.player2.choice_pos, 1);
    s.handle_event(InputEvent::KeyDown { key: Key::Left, repeat: true });
    assert_eq!(s.game.player2.choice_pos, 1);
}

#[test]
fn return_locks_characters_only_when_both_selected() {
    let mut s = Session::new();
    s.handle_event(down(Key::A));
    s.handle_event(down(Key::Right));
    s.handle_event(down(Key::Right));
    s.handle_event(down(Key::Z));
    assert_eq!(s.handle_event(down(Key::Return)), Response::Continue);
    assert_eq!(s.stage, GameStage::CharacterSelect);
    s.handle_event(down(Key::J));
    assert_eq!(s.handle_event(down(Key::Return)), Response::CharactersLocked { first: 1, second: 4 });
    assert_eq!(s.stage, GameStage::StageSelect);
    assert_eq!(s.handle_event(down(Key::Return)), Response::Continue);
    s.begin_play();
    assert_eq!(s.stage, GameStage::GameLoop);
    assert_eq!(s.handle_event(down(Key::Return)), Response::Continue);
    assert_eq!(s.handle_event(InputEvent::Quit), Response::Quit);
}

#[test]
fn character_indices_and_names() {
    assert_eq!(character_index(-2), 0);
    assert_eq!(character_index(2), 4);
    assert_eq!(character_name(0), "bandana");
    assert_eq!(character_name(1), "crash");
    assert_eq!(character_name(character_index(0)), "kirby");
    assert_eq!(character_name(3), "parasol");
    assert_eq!(character_name(4), "plasma");
}
