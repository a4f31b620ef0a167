//! Where everything is drawn on a screen of a given size. The field's centre
//! `(0, 0)` is drawn at the screen's centre.
use vstd::prelude::*;
use crate::ball::to_screen;
use crate::config::{
    BALL_HEIGHT, BALL_SPRITE_SCALE, BALL_WIDTH, CHAR_COUNT, CHAR_DIM, CHAR_SELECT_BOUND,
    CONS_HEIGHT, CONS_WIDTH, ICON_DIM, PADDLE_HEIGHT, PADDLE_WIDTH, PORTRAIT_DIM, SCORE_HEIGHT,
    SCORE_WIDTH, SELECTOR_OFFSET,
};
use crate::game::Game;
use crate::geometry::{centered_rect, clamp_position, lemma_point_in_range, Point, Rect, RectView};
use crate::paddle::Player;
use crate::session::cursor_in_range;

verus! {

broadcast use lemma_point_in_range;

/// The rectangle of size `w` by `h` around a field point, on a screen of
/// `width` by `height` pixels.
pub open spec fn on_screen(p: Point, w: int, h: int, width: int, height: int) -> RectView {
    centered_rect(to_screen(p.spec_x(), width), to_screen(p.spec_y(), height), w, h)
}

/// The rectangle of a portrait beside a paddle: centred `dx` pixels across
/// from the paddle's centre on screen.
pub open spec fn beside(p: Point, dx: int, width: int, height: int) -> RectView {
    centered_rect(
        clamp_position(to_screen(p.spec_x(), width) + dx),
        to_screen(p.spec_y(), height),
        PORTRAIT_DIM as int,
        PORTRAIT_DIM as int,
    )
}

/// Where the pieces of a match are drawn.
pub struct SceneLayout {
    /// The "First to ..." banner.
    pub banner: Rect,
    pub p1_score: Rect,
    pub p2_score: Rect,
    pub paddle1: Rect,
    pub paddle2: Rect,
    /// The ball at its own size.
    pub ball: Rect,
    /// The ball's sprite, `BALL_SPRITE_SCALE` times the ball's size.
    pub ball_sprite: Rect,
    /// The first player's character, left of its paddle.
    pub portrait1: Rect,
    /// The second player's character, right of its paddle.
    pub portrait2: Rect,
}

/// Lays out a match on a screen of `width` by `height` pixels: the banner and
/// the scores where the scoreboard puts them, the paddles and the ball where
/// they are, each portrait a paddle's width beside its paddle.
pub fn scene_layout(game: &Game, width: u32, height: u32) -> (l: SceneLayout)
    requires
        width <= i32::MAX,
        height <= i32::MAX,
    ensures
        ({
            let (w, h) = (width as int, height as int);
            &&& l.banner@ == on_screen(game.scoreboard.instructions_pos, CONS_WIDTH as int, CONS_HEIGHT as int, w, h)
            &&& l.p1_score@ == on_screen(game.scoreboard.p1_s_pos, SCORE_WIDTH as int, SCORE_HEIGHT as int, w, h)
            &&& l.p2_score@ == on_screen(game.scoreboard.p2_s_pos, SCORE_WIDTH as int, SCORE_HEIGHT as int, w, h)
            &&& l.paddle1@ == on_screen(game.player1.position, PADDLE_WIDTH as int, PADDLE_HEIGHT as int, w, h)
            &&& l.paddle2@ == on_screen(game.player2.position, PADDLE_WIDTH as int, PADDLE_HEIGHT as int, w, h)
            &&& l.ball@ == on_screen(game.ball.position, BALL_WIDTH as int, BALL_HEIGHT as int, w, h)
            &&& l.ball_sprite@ == on_screen(
                game.ball.position,
                (BALL_WIDTH * BALL_SPRITE_SCALE) as int,
                (BALL_HEIGHT * BALL_SPRITE_SCALE) as int,
                w,
                h,
            )
            &&& l.portrait1@ == beside(game.player1.position, -(PADDLE_WIDTH as int), w, h)
            &&& l.portrait2@ == beside(game.player2.position, PADDLE_WIDTH as int, w, h)
        }),
{
    let center = Point::new(width as i32 / 2, height as i32 / 2);
    let banner_at = game.scoreboard.instructions_pos.plus(&center);
    let p1_score_at = game.scoreboard.p1_s_pos.plus(&center);
    let p2_score_at = game.scoreboard.p2_s_pos.plus(&center);
    let paddle1_at = game.player1.position.plus(&center);
    let paddle2_at = game.player2.position.plus(&center);
    let ball_at = game.ball.position.plus(&center);
    let paddle_width = PADDLE_WIDTH as i32;
    SceneLayout {
        banner: Rect::from_center(&banner_at, CONS_WIDTH, CONS_HEIGHT),
        p1_score: Rect::from_center(&p1_score_at, SCORE_WIDTH, SCORE_HEIGHT),
        p2_score: Rect::from_center(&p2_score_at, SCORE_WIDTH, SCORE_HEIGHT),
        paddle1: Rect::from_center(&paddle1_at, PADDLE_WIDTH, PADDLE_HEIGHT),
        paddle2: Rect::from_center(&paddle2_at, PADDLE_WIDTH, PADDLE_HEIGHT),
        ball: Rect::from_center(&ball_at, BALL_WIDTH, BALL_HEIGHT),
        ball_sprite: Rect::from_center(
            &ball_at,
            BALL_WIDTH * BALL_SPRITE_SCALE,
            BALL_HEIGHT * BALL_SPRITE_SCALE,
        ),
        portrait1: Rect::from_center(&paddle1_at.offset(-paddle_width, 0), PORTRAIT_DIM, PORTRAIT_DIM),
        portrait2: Rect::from_center(&paddle2_at.offset(paddle_width, 0), PORTRAIT_DIM, PORTRAIT_DIM),
    }
}

/// A player's marks on the select screen.
pub struct Highlight {
    /// Index of the character under the player's cursor.
    pub character: usize,
    /// The selector drawn over that character's icon.
    pub selector: Rect,
    /// The large portrait of that character.
    pub portrait: Rect,
}

/// Where the select screen is drawn.
pub struct SelectLayout {
    /// The characters' icons, in order.
    pub icons: Vec<Rect>,
    /// The first player's marks, when its cursor is on a character.
    pub first: Option<Highlight>,
    /// The second player's marks, when its cursor is on a character.
    pub second: Option<Highlight>,
}

/// Horizontal screen coordinate of the centre of icon `i`: the icons are
/// `width / 5` apart, the middle one at the screen's centre.
pub open spec fn icon_x(i: int, width: int) -> int {
    width / 2 + (i - CHAR_SELECT_BOUND) * (width / 5)
}

/// Where icon `i` is drawn.
pub open spec fn icon_rect(i: int, width: int, height: int) -> RectView {
    centered_rect(
        clamp_position(icon_x(i, width)),
        clamp_position(height / 2),
        ICON_DIM as int,
        ICON_DIM as int,
    )
}

/// A selector drawn `d` pixels across and down from the centre of icon `i`.
pub open spec fn selector_rect(i: int, d: int, width: int, height: int) -> RectView {
    centered_rect(
        clamp_position(clamp_position(icon_x(i, width)) + d),
        clamp_position(clamp_position(height / 2) + d),
        ICON_DIM as int,
        ICON_DIM as int,
    )
}

/// Whether `mark` is the highlight of a cursor at `choice`, with its selector
/// `d` pixels off the icon and its portrait centred at `(px, py)`.
pub open spec fn marks(
    mark: Option<Highlight>,
    choice: int,
    d: int,
    px: int,
    py: int,
    width: int,
    height: int,
) -> bool {
    if cursor_in_range(choice) {
        &&& mark is Some
        &&& mark->0.character == choice + CHAR_SELECT_BOUND
        &&& mark->0.selector@ == selector_rect(choice + CHAR_SELECT_BOUND, d, width, height)
        &&& mark->0.portrait@ == centered_rect(px, py, CHAR_DIM as int, CHAR_DIM as int)
    } else {
        mark is None
    }
}

/// Lays out the select screen on a screen of `width` by `height` pixels: the
/// five icons in a row across the middle; for each player whose cursor is on
/// a character, a selector over its icon (up-left for the first player,
/// down-right for the second) and its portrait in the top-left quarter for
/// the first player, the bottom-right quarter for the second.
pub fn char_select_layout(p1: &Player, p2: &Player, width: u32, height: u32) -> (l: SelectLayout)
    requires
        width <= i32::MAX,
        height <= i32::MAX,
        cursor_in_range(p2.choice_pos as int) ==> 3 * width <= i32::MAX && 3 * height <= i32::MAX,
    ensures
        ({
            let (w, h) = (width as int, height as int);
            &&& l.icons@.len() == CHAR_COUNT
            &&& forall|i: int| 0 <= i < CHAR_COUNT ==> #[trigger] l.icons@[i]@ == icon_rect(i, w, h)
            &&& marks(l.first, p1.choice_pos as int, -SELECTOR_OFFSET, w / 4, h / 4, w, h)
            &&& marks(l.second, p2.choice_pos as int, SELECTOR_OFFSET as int, 3 * w / 4, 3 * h / 4, w, h)
        }),
{
    let offset = (width / 5) as i32;
    let half_width = width as i32 / 2;
    let half_height = height as i32 / 2;
    let mut icons: Vec<Rect> = Vec::new();
    let mut first: Option<Highlight> = None;
    let mut second: Option<Highlight> = None;
    let mut i: usize = 0;
    while i < 5
        invariant
            0 <= i <= 5,
            offset == width / 5,
            half_width == width / 2,
            half_height == height / 2,
            width <= i32::MAX,
            height <= i32::MAX,
            cursor_in_range(p2.choice_pos as int) ==> 3 * width <= i32::MAX && 3 * height <= i32::MAX,
            icons@.len() == i,
            forall|k: int| 0 <= k < i ==> #[trigger] icons@[k]@ == icon_rect(k, width as int, height as int),
            if cursor_in_range(p1.choice_pos as int) && p1.choice_pos + CHAR_SELECT_BOUND < i {
                marks(first, p1.choice_pos as int, -SELECTOR_OFFSET, width as int / 4, height as int / 4, width as int, height as int)
            } else {
                first is None
            },
            if cursor_in_range(p2.choice_pos as int) && p2.choice_pos + CHAR_SELECT_BOUND < i {
                marks(second, p2.choice_pos as int, SELECTOR_OFFSET as int, 3 * width as int / 4, 3 * height as int / 4, width as int, height as int)
            } else {
                second is None
            },
        decreases 5 - i,
    {
        let index_offset = i as i32 - CHAR_SELECT_BOUND;
        assert(-2 * offset <= index_offset * offset <= 2 * offset) by (nonlinear_arith)
            requires
                -2 <= index_offset <= 2,
                0 <= offset,
        ;
        let screen_position = Point::new(half_width + index_offset * offset, half_height);
        icons.push(Rect::from_center(&screen_position, ICON_DIM, ICON_DIM));
        if index_offset == p1.choice_pos {
            let selector = Rect::from_center(
                &screen_position.offset(-SELECTOR_OFFSET, -SELECTOR_OFFSET),
                ICON_DIM,
                ICON_DIM,
            );
            let portrait = Rect::from_center(
                &Point::new(width as i32 / 4, height as i32 / 4),
                CHAR_DIM,
                CHAR_DIM,
            );
            first = Some(Highlight { character: i, selector, portrait });
        }
        if index_offset == p2.choice_pos {
            let selector = Rect::from_center(
                &screen_position.offset(SELECTOR_OFFSET, SELECTOR_OFFSET),
                ICON_DIM,
                ICON_DIM,
            );
            let portrait = Rect::from_center(
                &Point::new(3 * width as i32 / 4, 3 * height as i32 / 4),
                CHAR_DIM,
                CHAR_DIM,
            );
            second = Some(Highlight { character: i, selector, portrait });
        }
        i = i + 1;
    }
    SelectLayout { icons, first, second }
}

/// Whether the select screen can be laid out on a screen of this size while
/// the second player's cursor is at `choice`: its portrait position, three
/// quarters across and down, is computed in `i32`.
pub fn select_screen_fits(choice: i32, width: u32, height: u32) -> (fits: bool)
    ensures
        fits == (width <= i32::MAX && height <= i32::MAX && (cursor_in_range(choice as int) ==> 3
            * width <= i32::MAX && 3 * height <= i32::MAX)),
{
    let limit = i32::MAX as u32;
    if width > limit || height > limit {
        return false;
    }
    if -CHAR_SELECT_BOUND <= choice && choice <= CHAR_SELECT_BOUND {
        width <= limit / 3 && height <= limit / 3
    } else {
        true
    }
}

/// Away from the clamping bounds, a piece of size `w` by `h` at field point
/// `p` is drawn with its top-left corner half its size up and left of
/// `p` shifted by half the screen, and a portrait `dx` pixels across from
/// it; the select screen's icons are `width / 5` apart around the centre.
pub proof fn lemma_layout_positions(p: Point, w: int, h: int, dx: int, width: int, height: int, i: int)
    requires
        -1000 <= p.spec_x() <= 1000,
        -1000 <= p.spec_y() <= 1000,
        1 <= w <= 1000,
        1 <= h <= 1000,
        -1000 <= dx <= 1000,
        0 <= width <= 0x100000,
        0 <= height <= 0x100000,
        0 <= i < 5,
    ensures
        on_screen(p, w, h, width, height) == (RectView {
            x: p.spec_x() + width / 2 - w / 2,
            y: p.spec_y() + height / 2 - h / 2,
            w,
            h,
        }),
        beside(p, dx, width, height) == (RectView {
            x: p.spec_x() + width / 2 + dx - PORTRAIT_DIM / 2,
            y: p.spec_y() + height / 2 - PORTRAIT_DIM / 2,
            w: PORTRAIT_DIM as int,
            h: PORTRAIT_DIM as int,
        }),
        icon_rect(i, width, height) == (RectView {
            x: width / 2 + (i - 2) * (width / 5) - ICON_DIM / 2,
            y: height / 2 - ICON_DIM / 2,
            w: ICON_DIM as int,
            h: ICON_DIM as int,
        }),
{
    assert(-2 * (width / 5) <= (i - 2) * (width / 5) <= 2 * (width / 5)) by (nonlinear_arith)
        requires
            0 <= i < 5,
            0 <= width / 5,
    ;
}

} // verus!
