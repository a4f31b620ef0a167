//! Points and rectangles on the playing field.
//!
//! Coordinates follow the conventions of SDL's rectangles: every coordinate is
//! kept within `[i32::MIN / 2, i32::MAX / 2]` (values outside are clamped), and
//! every rectangle is at least one pixel wide and at most `i32::MAX / 2` wide.
use vstd::prelude::*;

verus! {

/// Largest coordinate a point or rectangle corner can take.
pub const POSITION_MAX: i32 = 1073741823;

/// Smallest coordinate a point or rectangle corner can take.
pub const POSITION_MIN: i32 = -1073741824;

/// Largest width or height of a rectangle.
pub const SIZE_MAX: u32 = 1073741823;

/// A coordinate brought back into `[POSITION_MIN, POSITION_MAX]`.
pub open spec fn clamp_position(v: int) -> int {
    if v > POSITION_MAX {
        POSITION_MAX as int
    } else if v < POSITION_MIN {
        POSITION_MIN as int
    } else {
        v
    }
}

/// A rectangle side brought into `[1, SIZE_MAX]`: an empty side becomes one pixel.
pub open spec fn clamp_size(v: int) -> int {
    if v == 0 {
        1
    } else if v > SIZE_MAX {
        SIZE_MAX as int
    } else {
        v
    }
}

pub open spec fn in_position_range(v: int) -> bool {
    POSITION_MIN <= v <= POSITION_MAX
}

/// Computes `clamp_position(v)` for a value held in 64 bits.
fn clamp_wide(v: i64) -> (r: i32)
    ensures
        r == clamp_position(v as int),
{
    if v > POSITION_MAX as i64 {
        POSITION_MAX
    } else if v < POSITION_MIN as i64 {
        POSITION_MIN
    } else {
        v as i32
    }
}

/// A point on the field; both coordinates always lie in the position range.
#[derive(Clone, Copy, Debug)]
pub struct Point {
    x: i32,
    y: i32,
}

impl Point {
    #[verifier::type_invariant]
    spec fn in_range(self) -> bool {
        in_position_range(self.x as int) && in_position_range(self.y as int)
    }

    /// The coordinates of the point.
    pub closed spec fn view(self) -> (int, int) {
        (clamp_position(self.x as int), clamp_position(self.y as int))
    }

    pub open spec fn spec_x(self) -> int {
        self.view().0
    }

    pub open spec fn spec_y(self) -> int {
        self.view().1
    }

    /// The point with the given coordinates, each clamped to the position range.
    pub fn new(x: i32, y: i32) -> (p: Point)
        ensures
            p.view() == (clamp_position(x as int), clamp_position(y as int)),
    {
        Point { x: clamp_wide(x as i64), y: clamp_wide(y as i64) }
    }

    pub fn x(&self) -> (r: i32)
        ensures
            r == self.spec_x(),
    {
        proof {
            use_type_invariant(self);
        }
        self.x
    }

    pub fn y(&self) -> (r: i32)
        ensures
            r == self.spec_y(),
    {
        proof {
            use_type_invariant(self);
        }
        self.y
    }

    /// The point shifted by `(dx, dy)`, clamped to the position range.
    pub fn offset(&self, dx: i32, dy: i32) -> (p: Point)
        ensures
            p.view() == (
                clamp_position(self.spec_x() + dx),
                clamp_position(self.spec_y() + dy),
            ),
    {
        proof {
            use_type_invariant(self);
        }
        Point { x: clamp_wide(self.x as i64 + dx as i64), y: clamp_wide(self.y as i64 + dy as i64) }
    }

    /// The sum of two points, as SDL's `Point + Point`: `self` shifted by `other`.
    pub fn plus(&self, other: &Point) -> (p: Point)
        ensures
            p.view() == (
                clamp_position(self.spec_x() + other.spec_x()),
                clamp_position(self.spec_y() + other.spec_y()),
            ),
    {
        let dx = other.x();
        let dy = other.y();
        self.offset(dx, dy)
    }

    /// Moves the point vertically to `y`, keeping its horizontal coordinate.
    pub fn set_y(&mut self, y: i32)
        ensures
            final(self).view() == (old(self).spec_x(), clamp_position(y as int)),
    {
        proof {
            use_type_invariant(&*self);
        }
        self.y = clamp_wide(y as i64);
    }
}

/// Every point's coordinates lie in the position range.
pub broadcast proof fn lemma_point_in_range(p: Point)
    ensures
        in_position_range(#[trigger] p.view().0),
        in_position_range(p.view().1),
{
}

/// An axis-aligned rectangle: its top-left corner lies in the position range
/// and its sides in `[1, SIZE_MAX]`.
#[derive(Clone, Copy, Debug)]
pub struct Rect {
    x: i32,
    y: i32,
    w: i32,
    h: i32,
}

/// The corner and sides of a rectangle.
pub struct RectView {
    pub x: int,
    pub y: int,
    pub w: int,
    pub h: int,
}

/// The rectangle of the given size whose centre is `(cx, cy)`.
pub open spec fn centered_rect(cx: int, cy: int, width: int, height: int) -> RectView {
    let w = clamp_size(width);
    let h = clamp_size(height);
    RectView {
        x: clamp_position(clamp_position(cx) - w / 2),
        y: clamp_position(clamp_position(cy) - h / 2),
        w,
        h,
    }
}

/// Whether `(px, py)` lies in the rectangle; the right and bottom edges are outside.
pub open spec fn rect_contains(r: RectView, px: int, py: int) -> bool {
    r.x <= px < r.x + r.w && r.y <= py < r.y + r.h
}

/// Computes `clamp_size(v)`.
fn clamp_side(v: u32) -> (r: i32)
    ensures
        r == clamp_size(v as int),
{
    if v == 0 {
        1
    } else if v > SIZE_MAX {
        SIZE_MAX as i32
    } else {
        v as i32
    }
}

impl Rect {
    #[verifier::type_invariant]
    spec fn well_formed(self) -> bool {
        &&& in_position_range(self.x as int)
        &&& in_position_range(self.y as int)
        &&& 1 <= self.w <= SIZE_MAX
        &&& 1 <= self.h <= SIZE_MAX
    }

    pub closed spec fn view(self) -> RectView {
        RectView {
            x: clamp_position(self.x as int),
            y: clamp_position(self.y as int),
            w: clamp_size(self.w as int),
            h: clamp_size(self.h as int),
        }
    }

    /// The rectangle of size `width` by `height` centred on `center`.
    pub fn from_center(center: &Point, width: u32, height: u32) -> (r: Rect)
        ensures
            r.view() == centered_rect(center.spec_x(), center.spec_y(), width as int, height as int),
    {
        let w = clamp_side(width);
        let h = clamp_side(height);
        let cx = center.x();
        let cy = center.y();
        Rect { x: clamp_wide(cx as i64 - (w / 2) as i64), y: clamp_wide(cy as i64 - (h / 2) as i64), w, h }
    }

    pub fn x(&self) -> (r: i32)
        ensures
            r == self.view().x,
    {
        proof {
            use_type_invariant(self);
        }
        self.x
    }

    pub fn y(&self) -> (r: i32)
        ensures
            r == self.view().y,
    {
        proof {
            use_type_invariant(self);
        }
        self.y
    }

    pub fn width(&self) -> (r: u32)
        ensures
            r == self.view().w,
    {
        proof {
            use_type_invariant(self);
        }
        self.w as u32
    }

    pub fn height(&self) -> (r: u32)
        ensures
            r == self.view().h,
    {
        proof {
            use_type_invariant(self);
        }
        self.h as u32
    }

    /// Whether the point lies in the rectangle (right and bottom edges excluded).
    pub fn contains_point(&self, p: &Point) -> (b: bool)
        ensures
            b == rect_contains(self.view(), p.spec_x(), p.spec_y()),
    {
        proof {
            use_type_invariant(self);
        }
        let px = p.x();
        let py = p.y();
        px >= self.x && px < self.x + self.w && py >= self.y && py < self.y + self.h
    }
}

} // verus!
