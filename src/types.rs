//! Geometry primitives and colors.
use vstd::prelude::*;

verus! {

/// Largest value of an `i32`, as an `int`.
pub open spec fn coord_max() -> int {
    i32::MAX as int
}

/// Smallest value of an `i32`, as an `int`.
pub open spec fn coord_min() -> int {
    i32::MIN as int
}

/// `v` pulled into the range of an `i32`.
pub open spec fn sat(v: int) -> int {
    if v > coord_max() {
        coord_max()
    } else if v < coord_min() {
        coord_min()
    } else {
        v
    }
}

/// Whether `v` is the value of some `i32`.
pub open spec fn fits(v: int) -> bool {
    coord_min() <= v <= coord_max()
}

/// Brings a wide value into the range of a coordinate, saturating at the ends.
pub fn saturate(v: i64) -> (r: i32)
    ensures
        r as int == sat(v as int),
{
    if v > i32::MAX as i64 {
        i32::MAX
    } else if v < i32::MIN as i64 {
        i32::MIN
    } else {
        v as i32
    }
}

/// Brings a very wide value into the range of a coordinate, saturating at the ends.
pub fn saturate_wide(v: i128) -> (r: i32)
    ensures
        r as int == sat(v as int),
{
    if v > i32::MAX as i128 {
        i32::MAX
    } else if v < i32::MIN as i128 {
        i32::MIN
    } else {
        v as i32
    }
}

/// A 2 dimensional point or offset, in pixels.
#[derive(Copy, Clone, Debug, PartialEq, Eq, Structural, Default)]
pub struct Vec2 {
    pub x: i32,
    pub y: i32,
}

impl Vec2 {
    /// The point `(0, 0)`.
    pub open spec fn spec_origin() -> Vec2 {
        Vec2 { x: 0, y: 0 }
    }

    pub fn new(x: i32, y: i32) -> (r: Vec2)
        ensures
            r.x == x,
            r.y == y,
    {
        Vec2 { x, y }
    }

    pub fn zero() -> (r: Vec2)
        ensures
            r == Vec2::spec_origin(),
    {
        Vec2 { x: 0, y: 0 }
    }

    /// The sum of two points, saturating at the range of a coordinate.
    pub open spec fn spec_add(self, o: Vec2) -> Vec2 {
        Vec2 { x: sat(self.x + o.x) as i32, y: sat(self.y + o.y) as i32 }
    }

    /// The sum of two points, saturating at the range of a coordinate.
    pub fn add(self, o: Vec2) -> (r: Vec2)
        ensures
            r == self.spec_add(o),
    {
        Vec2 { x: saturate(self.x as i64 + o.x as i64), y: saturate(self.y as i64 + o.y as i64) }
    }

    /// The difference of two points, saturating at the range of a coordinate.
    pub open spec fn spec_sub(self, o: Vec2) -> Vec2 {
        Vec2 { x: sat(self.x - o.x) as i32, y: sat(self.y - o.y) as i32 }
    }

    /// The difference of two points, saturating at the range of a coordinate.
    pub fn sub(self, o: Vec2) -> (r: Vec2)
        ensures
            r == self.spec_sub(o),
    {
        Vec2 { x: saturate(self.x as i64 - o.x as i64), y: saturate(self.y as i64 - o.y as i64) }
    }

    /// Whether the distance between two points is more than `d`.
    pub open spec fn spec_farther_than(self, o: Vec2, d: int) -> bool {
        (self.x - o.x) * (self.x - o.x) + (self.y - o.y) * (self.y - o.y) > d * d
    }

    /// Whether the distance between two points is more than `d` (`d >= 0`).
    pub fn farther_than(self, o: Vec2, d: i32) -> (r: bool)
        requires
            d >= 0,
        ensures
            r == self.spec_farther_than(o, d as int),
    {
        let dx: i128 = self.x as i128 - o.x as i128;
        let dy: i128 = self.y as i128 - o.y as i128;
        assert(dx * dx <= 0x4_0000_0000_0000_0000) by (nonlinear_arith)
            requires
                -0x2_0000_0000 <= dx <= 0x2_0000_0000,
        ;
        assert(dy * dy <= 0x4_0000_0000_0000_0000) by (nonlinear_arith)
            requires
                -0x2_0000_0000 <= dy <= 0x2_0000_0000,
        ;
        assert(0 <= d * d <= 0x4_0000_0000_0000_0000) by (nonlinear_arith)
            requires
                0 <= d <= 0x2_0000_0000,
        ;
        assert(dx * dx >= 0 && dy * dy >= 0) by (nonlinear_arith);
        let dd: i128 = d as i128;
        dx * dx + dy * dy > dd * dd
    }
}

/// A color with 8-bit red, green, blue and alpha channels.
#[derive(Copy, Clone, Debug, PartialEq, Eq, Structural, Default)]
pub struct Color {
    pub r: u8,
    pub g: u8,
    pub b: u8,
    pub a: u8,
}

impl Color {
    pub fn from_rgba(r: u8, g: u8, b: u8, a: u8) -> (c: Color)
        ensures
            c == (Color { r, g, b, a }),
    {
        Color { r, g, b, a }
    }

    /// An opaque color.
    pub fn from_rgb(r: u8, g: u8, b: u8) -> (c: Color)
        ensures
            c == (Color { r, g, b, a: 255 }),
    {
        Color { r, g, b, a: 255 }
    }
}

/// A simple 2D rectangle.
///
/// The origin of the rectangle is at the top-left,
/// with x increasing to the right and y increasing down.
#[derive(Copy, Clone, Debug, PartialEq, Eq, Structural, Default)]
pub struct Rect {
    /// X coordinate of the left edge of the rect.
    pub x: i32,
    /// Y coordinate of the top edge of the rect.
    pub y: i32,
    /// Total width of the rect.
    pub w: i32,
    /// Total height of the rect.
    pub h: i32,
}

impl Rect {
    pub open spec fn spec_right(self) -> int {
        self.x + self.w
    }

    pub open spec fn spec_bottom(self) -> int {
        self.y + self.h
    }

    /// Whether the point lies inside the rect, edges included.
    pub open spec fn spec_contains(self, p: Vec2) -> bool {
        self.x <= p.x <= self.spec_right() && self.y <= p.y <= self.spec_bottom()
    }

    /// Whether the two rects share a point, edges included.
    pub open spec fn spec_overlaps(self, o: Rect) -> bool {
        self.x <= o.spec_right() && self.spec_right() >= o.x && self.y <= o.spec_bottom()
            && self.spec_bottom() >= o.y
    }

    /// Create a new `Rect`.
    pub fn new(x: i32, y: i32, w: i32, h: i32) -> (r: Rect)
        ensures
            r == (Rect { x, y, w, h }),
    {
        Rect { x, y, w, h }
    }

    /// Create a new `Rect` from `i32` coordinates.
    pub fn new_i32(x: i32, y: i32, w: i32, h: i32) -> (r: Rect)
        ensures
            r == (Rect { x, y, w, h }),
    {
        Rect { x, y, w, h }
    }

    /// Create a new `Rect` at a position with a size.
    pub fn from_parts(position: Vec2, size: Vec2) -> (r: Rect)
        ensures
            r == (Rect { x: position.x, y: position.y, w: size.x, h: size.y }),
    {
        Rect { x: position.x, y: position.y, w: size.x, h: size.y }
    }

    /// Create a new `Rect` with all values zero.
    pub fn zero() -> (r: Rect)
        ensures
            r == (Rect { x: 0, y: 0, w: 0, h: 0 }),
    {
        Rect { x: 0, y: 0, w: 0, h: 0 }
    }

    /// Creates a new `Rect` at `0,0` with width and height 1.
    pub fn one() -> (r: Rect)
        ensures
            r == (Rect { x: 0, y: 0, w: 1, h: 1 }),
    {
        Rect { x: 0, y: 0, w: 1, h: 1 }
    }

    /// Returns the left edge of the `Rect`.
    pub fn left(&self) -> (r: i64)
        ensures
            r == self.x,
    {
        self.x as i64
    }

    /// Returns the right edge of the `Rect`.
    pub fn right(&self) -> (r: i64)
        ensures
            r == self.spec_right(),
    {
        self.x as i64 + self.w as i64
    }

    /// Returns the top edge of the `Rect`.
    pub fn top(&self) -> (r: i64)
        ensures
            r == self.y,
    {
        self.y as i64
    }

    /// Returns the bottom edge of the `Rect`.
    pub fn bottom(&self) -> (r: i64)
        ensures
            r == self.spec_bottom(),
    {
        self.y as i64 + self.h as i64
    }

    /// The position of the top-left corner.
    pub fn position(&self) -> (r: Vec2)
        ensures
            r == (Vec2 { x: self.x, y: self.y }),
    {
        Vec2 { x: self.x, y: self.y }
    }

    /// The width and height.
    pub fn size(&self) -> (r: Vec2)
        ensures
            r == (Vec2 { x: self.w, y: self.h }),
    {
        Vec2 { x: self.w, y: self.h }
    }

    /// Checks whether the `Rect` contains a point.
    pub fn contains(&self, point: Vec2) -> (r: bool)
        ensures
            r == self.spec_contains(point),
    {
        point.x as i64 >= self.left() && point.x as i64 <= self.right() && point.y as i64
            <= self.bottom() && point.y as i64 >= self.top()
    }

    /// Checks whether the `Rect` overlaps another `Rect`.
    pub fn overlaps(&self, other: &Rect) -> (r: bool)
        ensures
            r == self.spec_overlaps(*other),
    {
        self.left() <= other.right() && self.right() >= other.left() && self.top()
            <= other.bottom() && self.bottom() >= other.top()
    }

    /// The smallest rect holding both, its far edges saturating at the range of a coordinate.
    pub open spec fn spec_combine_with(self, o: Rect) -> Rect {
        let x = if self.x <= o.x { self.x } else { o.x };
        let y = if self.y <= o.y { self.y } else { o.y };
        let r = if self.spec_right() >= o.spec_right() { self.spec_right() } else { o.spec_right() };
        let b = if self.spec_bottom() >= o.spec_bottom() { self.spec_bottom() } else { o.spec_bottom() };
        Rect { x, y, w: sat(r - x) as i32, h: sat(b - y) as i32 }
    }

    /// Returns a new `Rect` that includes all points of these two `Rect`s.
    pub fn combine_with(self, other: Rect) -> (r: Rect)
        ensures
            r == self.spec_combine_with(other),
    {
        let x = if self.x <= other.x { self.x } else { other.x };
        let y = if self.y <= other.y { self.y } else { other.y };
        let right = if self.right() >= other.right() { self.right() } else { other.right() };
        let bottom = if self.bottom() >= other.bottom() { self.bottom() } else { other.bottom() };
        Rect { x, y, w: saturate(right - x as i64), h: saturate(bottom - y as i64) }
    }

    /// The rect moved by `v`, saturating at the range of a coordinate.
    pub open spec fn spec_offset(self, v: Vec2) -> Rect {
        Rect { x: sat(self.x + v.x) as i32, y: sat(self.y + v.y) as i32, w: self.w, h: self.h }
    }

    /// The rect moved by `v`.
    pub fn offset(self, v: Vec2) -> (r: Rect)
        ensures
            r == self.spec_offset(v),
    {
        Rect {
            x: saturate(self.x as i64 + v.x as i64),
            y: saturate(self.y as i64 + v.y as i64),
            w: self.w,
            h: self.h,
        }
    }
}

} // verus!
