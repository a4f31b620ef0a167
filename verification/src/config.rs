//! The game's fixed parameters.
use vstd::prelude::*;

verus! {

/// Width of the window the game is designed for, in pixels.
pub const WINDOW_WIDTH: u32 = 800;

/// Height of the window the game is designed for, in pixels.
pub const WINDOW_HEIGHT: u32 = 600;

/// How far a paddle moves in one frame.
pub const PLAYER_MOVEMENT_SPEED: i32 = 10;

pub const PADDLE_HEIGHT: u32 = 80;

pub const PADDLE_WIDTH: u32 = 15;

/// The paddles stand `WINDOW_WIDTH / POSITION_SCALE_MOD` in from the side walls.
pub const POSITION_SCALE_MOD: u32 = 8;

pub const BALL_HEIGHT: u32 = 10;

pub const BALL_WIDTH: u32 = 10;

/// Horizontal speed of the ball when a round starts.
pub const BALL_START_XSPEED: i32 = 4;

/// Vertical speed of the ball when a round starts.
pub const BALL_START_YSPEED: i32 = 2;

/// How much each paddle hit speeds the ball up, on both axes.
pub const BALL_RAMP_SPEED: i32 = 1;

pub const BALL_MAX_XSPEED: i32 = 13;

pub const BALL_MAX_YSPEED: i32 = 7;

/// The score that wins a match.
pub const WIN_CONDITIONS: u32 = 6;

/// The score digits stand `WINDOW_WIDTH / SCORE_SCALE_MOD` in from the side walls.
pub const SCORE_SCALE_MOD: u32 = 4;

pub const SCORE_HEIGHT: u32 = 60;

pub const SCORE_WIDTH: u32 = 30;

/// Height of the "First to ..." banner.
pub const CONS_HEIGHT: u32 = 50;

/// Width of the "First to ..." banner.
pub const CONS_WIDTH: u32 = 200;

/// Side of a character icon on the select screen.
pub const ICON_DIM: u32 = 50;

/// The selection cursor ranges over `-CHAR_SELECT_BOUND ..= CHAR_SELECT_BOUND`.
pub const CHAR_SELECT_BOUND: i32 = 2;

/// Number of playable characters.
pub const CHAR_COUNT: i32 = 5;

/// How far a player's selector is drawn from the icon it points at.
pub const SELECTOR_OFFSET: i32 = 20;

/// Side of the large character portrait on the select screen.
pub const CHAR_DIM: u32 = 100;

/// Side of a character portrait beside its paddle.
pub const PORTRAIT_DIM: u32 = 50;

/// The ball sprite is drawn this many times the ball's size.
pub const BALL_SPRITE_SCALE: u32 = 3;

/// The paddle centre's vertical coordinate ranges over `-PADDLE_Y_LIMIT ..= PADDLE_Y_LIMIT`.
pub const PADDLE_Y_LIMIT: u32 = (WINDOW_HEIGHT - PADDLE_HEIGHT) / 2;

/// The ball centre's vertical coordinate ranges over `-BALL_Y_LIMIT ..= BALL_Y_LIMIT`.
pub const BALL_Y_LIMIT: u32 = (WINDOW_HEIGHT - BALL_HEIGHT) / 2;

/// The ball centre's horizontal coordinate ranges over `-BALL_X_LIMIT ..= BALL_X_LIMIT`;
/// the two ends are the goal lines.
pub const BALL_X_LIMIT: u32 = (WINDOW_WIDTH - BALL_WIDTH) / 2;

/// Horizontal distance of each paddle from the centre of the field.
pub const PADDLE_X_OFFSET: u32 = WINDOW_WIDTH / 2 - WINDOW_WIDTH / POSITION_SCALE_MOD;

/// Horizontal distance of each score from the centre of the field.
pub const SCORE_X_OFFSET: u32 = WINDOW_WIDTH / 2 - WINDOW_WIDTH / SCORE_SCALE_MOD;

/// Vertical coordinate of the scores.
pub const SCORE_Y: u32 = WINDOW_HEIGHT / 2 - SCORE_HEIGHT / 2;

/// Vertical coordinate of the "First to ..." banner.
pub const CONS_Y: u32 = WINDOW_HEIGHT / 2 - CONS_HEIGHT / 2;

} // verus!
