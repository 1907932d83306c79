//! Plain integer 2-D geometry: points, vectors, sizes and rectangles in
//! whole-pixel coordinates.

use vstd::prelude::*;

verus! {

/// Largest magnitude of a position coordinate the scroll machinery works
/// with (2^30 pixels).
pub const MAX_POS: i64 = 0x4000_0000;

/// Largest width or height of a viewport or content area (2^29 pixels).
pub const MAX_DIM: i64 = 0x2000_0000;

/// A position in 2-D space.
#[derive(Clone, Copy, Debug, PartialEq, Eq, Structural)]
pub struct Point {
    pub x: i64,
    pub y: i64,
}

/// A displacement in 2-D space.
#[derive(Clone, Copy, Debug, PartialEq, Eq, Structural)]
pub struct Vec2 {
    pub x: i64,
    pub y: i64,
}

/// A width and a height.
#[derive(Clone, Copy, Debug, PartialEq, Eq, Structural)]
pub struct Size {
    pub width: i64,
    pub height: i64,
}

/// An axis-aligned rectangle given by its two corners.
///
/// A rectangle with `x1 < x0` or `y1 < y0` is empty; nothing here
/// constructs one from well-formed inputs, but, as in the host toolkit,
/// the type itself does not forbid it.
#[derive(Clone, Copy, Debug, PartialEq, Eq, Structural)]
pub struct Rect {
    pub x0: i64,
    pub y0: i64,
    pub x1: i64,
    pub y1: i64,
}

/// A position small enough that the scroll arithmetic cannot overflow.
pub open spec fn point_ok(p: Point) -> bool {
    -MAX_POS <= p.x <= MAX_POS && -MAX_POS <= p.y <= MAX_POS
}

/// A displacement small enough that the scroll arithmetic cannot overflow.
pub open spec fn vec_ok(v: Vec2) -> bool {
    -MAX_POS <= v.x <= MAX_POS && -MAX_POS <= v.y <= MAX_POS
}

/// A non-negative size within the supported range.
pub open spec fn size_ok(s: Size) -> bool {
    0 <= s.width <= MAX_DIM && 0 <= s.height <= MAX_DIM
}

/// A non-empty-or-degenerate rectangle whose origin is a valid position and
/// whose extent is a valid size.
pub open spec fn rect_ok(r: Rect) -> bool {
    &&& -MAX_POS <= r.x0 <= MAX_POS
    &&& -MAX_POS <= r.y0 <= MAX_POS
    &&& 0 <= r.x1 - r.x0 <= MAX_DIM
    &&& 0 <= r.y1 - r.y0 <= MAX_DIM
}

impl Point {
    /// The point at the origin of the coordinate system.
    pub fn zero() -> (r: Point)
        ensures
            r == (Point { x: 0, y: 0 }),
    {
        Point { x: 0, y: 0 }
    }

    /// Reinterprets this position as a displacement from the origin.
    pub fn to_vec2(self) -> (r: Vec2)
        ensures
            r.x == self.x,
            r.y == self.y,
    {
        Vec2 { x: self.x, y: self.y }
    }
}

impl Vec2 {
    /// The zero displacement.
    pub fn zero() -> (r: Vec2)
        ensures
            r == (Vec2 { x: 0, y: 0 }),
    {
        Vec2 { x: 0, y: 0 }
    }

    /// Reinterprets this displacement as a position.
    pub fn to_point(self) -> (r: Point)
        ensures
            r.x == self.x,
            r.y == self.y,
    {
        Point { x: self.x, y: self.y }
    }
}

impl Size {
    /// The empty size.
    pub fn zero() -> (r: Size)
        ensures
            r == (Size { width: 0, height: 0 }),
    {
        Size { width: 0, height: 0 }
    }

    /// The rectangle from the origin to this size's corner.
    pub fn to_rect(self) -> (r: Rect)
        ensures
            r == (Rect { x0: 0, y0: 0, x1: self.width, y1: self.height }),
    {
        Rect { x0: 0, y0: 0, x1: self.width, y1: self.height }
    }
}

impl Rect {
    /// The width of this rectangle in spec arithmetic.
    pub open spec fn spec_width(self) -> int {
        self.x1 - self.x0
    }

    /// The height of this rectangle in spec arithmetic.
    pub open spec fn spec_height(self) -> int {
        self.y1 - self.y0
    }

    /// The corner of this rectangle with the smallest coordinates.
    pub open spec fn spec_origin(self) -> Point {
        Point { x: self.x0, y: self.y0 }
    }

    /// Whether `p` lies inside this rectangle (the lower edges included,
    /// the upper edges excluded).
    pub open spec fn spec_contains(self, p: Point) -> bool {
        self.x0 <= p.x < self.x1 && self.y0 <= p.y < self.y1
    }

    /// The width of this rectangle.
    pub fn width(&self) -> (r: i64)
        requires
            rect_ok(*self),
        ensures
            r == self.spec_width(),
    {
        self.x1 - self.x0
    }

    /// The height of this rectangle.
    pub fn height(&self) -> (r: i64)
        requires
            rect_ok(*self),
        ensures
            r == self.spec_height(),
    {
        self.y1 - self.y0
    }

    /// The corner with the smallest coordinates.
    pub fn origin(&self) -> (r: Point)
        ensures
            r == self.spec_origin(),
    {
        Point { x: self.x0, y: self.y0 }
    }

    /// The extent of this rectangle.
    pub fn size(&self) -> (r: Size)
        requires
            rect_ok(*self),
        ensures
            r.width == self.spec_width(),
            r.height == self.spec_height(),
    {
        Size { width: self.x1 - self.x0, height: self.y1 - self.y0 }
    }

    /// The same extent moved so that its smallest corner is `origin`.
    pub fn with_origin(&self, origin: Point) -> (r: Rect)
        requires
            rect_ok(*self),
            point_ok(origin),
        ensures
            r.x0 == origin.x,
            r.y0 == origin.y,
            r.spec_width() == self.spec_width(),
            r.spec_height() == self.spec_height(),
            rect_ok(r),
    {
        Rect {
            x0: origin.x,
            y0: origin.y,
            x1: origin.x + (self.x1 - self.x0),
            y1: origin.y + (self.y1 - self.y0),
        }
    }

    /// The same origin with the extent replaced by `size`.
    pub fn with_size(&self, size: Size) -> (r: Rect)
        requires
            rect_ok(*self),
            size_ok(size),
        ensures
            r.x0 == self.x0,
            r.y0 == self.y0,
            r.spec_width() == size.width,
            r.spec_height() == size.height,
            rect_ok(r),
    {
        Rect { x0: self.x0, y0: self.y0, x1: self.x0 + size.width, y1: self.y0 + size.height }
    }

    /// Whether `p` lies inside this rectangle (the lower edges included,
    /// the upper edges excluded).
    pub fn contains(&self, p: Point) -> (r: bool)
        ensures
            r == self.spec_contains(p),
    {
        self.x0 <= p.x && p.x < self.x1 && self.y0 <= p.y && p.y < self.y1
    }
}

} // verus!
