//! Screen rectangles and points, with the clamping rules of SDL2's `Rect` and `Point`.
use vstd::prelude::*;

verus! {

/// The largest coordinate, width or height that a rectangle holds.
pub const MAX_INT_VALUE: i32 = 1073741823;

/// The smallest coordinate that a rectangle or point holds.
pub const MIN_INT_VALUE: i32 = -1073741824;

/// A coordinate clamped into `MIN_INT_VALUE ..= MAX_INT_VALUE`.
pub open spec fn clamp_position(v: int) -> int {
    if v > MAX_INT_VALUE {
        MAX_INT_VALUE as int
    } else if v < MIN_INT_VALUE {
        MIN_INT_VALUE as int
    } else {
        v
    }
}

/// A width or height made non-empty and clamped to at most `MAX_INT_VALUE`.
pub open spec fn clamp_size(v: u32) -> int {
    if v == 0 {
        1
    } else if v > MAX_INT_VALUE {
        MAX_INT_VALUE as int
    } else {
        v as int
    }
}

fn clamp_position_exec(v: i32) -> (r: i32)
    ensures
        r == clamp_position(v as int),
{
    if v > MAX_INT_VALUE {
        MAX_INT_VALUE
    } else if v < MIN_INT_VALUE {
        MIN_INT_VALUE
    } else {
        v
    }
}

fn clamp_size_exec(v: u32) -> (r: i32)
    ensures
        r == clamp_size(v),
{
    if v == 0 {
        1
    } else if v > MAX_INT_VALUE as u32 {
        MAX_INT_VALUE
    } else {
        v as i32
    }
}

/// The left edge, top edge, width and height of `Rect::new(x, y, width, height)`.
pub open spec fn new_rect_view(x: int, y: int, width: u32, height: u32) -> (int, int, int, int) {
    (clamp_position(x), clamp_position(y), clamp_size(width), clamp_size(height))
}

/// A point on the screen.
#[derive(Clone, Copy, Debug, PartialEq, Eq, Structural)]
pub struct Point {
    pub x: i32,
    pub y: i32,
}

impl Point {
    /// The point at (`x`, `y`), each coordinate clamped into
    /// `MIN_INT_VALUE ..= MAX_INT_VALUE`.
    pub fn new(x: i32, y: i32) -> (p: Point)
        ensures
            p.x == clamp_position(x as int),
            p.y == clamp_position(y as int),
    {
        Point { x: clamp_position_exec(x), y: clamp_position_exec(y) }
    }
}

/// A non-empty rectangle on the screen.
#[derive(Clone, Copy, Debug, PartialEq, Eq)]
pub struct Rect {
    x: i32,
    y: i32,
    w: i32,
    h: i32,
}

impl View for Rect {
    /// The left edge, top edge, width and height.
    type V = (int, int, int, int);

    closed spec fn view(&self) -> (int, int, int, int) {
        (self.x as int, self.y as int, self.w as int, self.h as int)
    }
}

/// Whether the point (`x`, `y`) lies in the rectangle `r` (left, top, width, height):
/// on or right of its left edge and left of its right edge, on or below its top
/// edge and above its bottom edge.
pub open spec fn rect_contains(r: (int, int, int, int), x: int, y: int) -> bool {
    r.0 <= x < r.0 + r.2 && r.1 <= y < r.1 + r.3
}

impl Rect {
    #[verifier::type_invariant]
    spec fn well_formed(self) -> bool {
        &&& MIN_INT_VALUE <= self.x <= MAX_INT_VALUE
        &&& MIN_INT_VALUE <= self.y <= MAX_INT_VALUE
        &&& 1 <= self.w <= MAX_INT_VALUE
        &&& 1 <= self.h <= MAX_INT_VALUE
    }

    /// The rectangle with top-left corner (`x`, `y`) and the given size, the position
    /// clamped like a point's and the size by `clamp_size`.
    pub fn new(x: i32, y: i32, width: u32, height: u32) -> (r: Rect)
        ensures
            r@ == new_rect_view(x as int, y as int, width, height),
    {
        Rect {
            x: clamp_position_exec(x),
            y: clamp_position_exec(y),
            w: clamp_size_exec(width),
            h: clamp_size_exec(height),
        }
    }

    /// The rectangle of the given size centred on `center`: its left edge lies half
    /// its (clamped) width left of the centre, rounded towards the centre, and
    /// likewise its top edge.
    pub fn from_center(center: Point, width: u32, height: u32) -> (r: Rect)
        ensures
            r@ == (
                clamp_position(clamp_position(center.x as int) - clamp_size(width) / 2),
                clamp_position(clamp_position(center.y as int) - clamp_size(height) / 2),
                clamp_size(width),
                clamp_size(height),
            ),
    {
        let w = clamp_size_exec(width);
        let h = clamp_size_exec(height);
        let x = clamp_position_exec(clamp_position_exec(center.x) - w / 2);
        let y = clamp_position_exec(clamp_position_exec(center.y) - h / 2);
        Rect { x, y, w, h }
    }

    /// The x-position of the left side.
    pub fn left(&self) -> (r: i32)
        ensures
            r == self@.0,
    {
        self.x
    }

    /// The y-position of the top side.
    pub fn top(&self) -> (r: i32)
        ensures
            r == self@.1,
    {
        self.y
    }

    /// The width.
    pub fn width(&self) -> (r: u32)
        ensures
            r == self@.2,
            r >= 1,
    {
        proof {
            use_type_invariant(self);
        }
        self.w as u32
    }

    /// The height.
    pub fn height(&self) -> (r: u32)
        ensures
            r == self@.3,
            r >= 1,
    {
        proof {
            use_type_invariant(self);
        }
        self.h as u32
    }

    /// Whether `p` lies in this rectangle.
    pub fn contains_point(&self, p: Point) -> (r: bool)
        ensures
            r == rect_contains(self@, p.x as int, p.y as int),
            r == (self@.0 <= p.x && p.x < self@.0 + self@.2 && self@.1 <= p.y && p.y < self@.1 + self@.3),
    {
        proof {
            use_type_invariant(self);
        }
        p.x >= self.x && p.x < self.x + self.w && p.y >= self.y && p.y < self.y + self.h
    }
}

/// A point lies in a rectangle only if it is on or right of the left edge, on or
/// below the top edge, and strictly left of and above the far edges; a point above
/// or left of a rectangle is never in it.
pub proof fn lemma_contained_point_within_edges(r: (int, int, int, int), x: int, y: int)
    ensures
        rect_contains(r, x, y) ==> r.0 <= x && r.1 <= y && x < r.0 + r.2 && y < r.1 + r.3,
        y < r.1 || x < r.0 || x >= r.0 + r.2 || y >= r.1 + r.3 ==> !rect_contains(r, x, y),
{
}

} // verus!
