//! Integer screen geometry: points, offsets, rectangles and vertical
//! ranges, in the layout units the rest of the crate computes with.

use vstd::prelude::*;

verus! {

/// A position in screen space.
#[derive(Clone, Copy, Debug, PartialEq, Eq, Structural)]
pub struct Point {
    pub x: i32,
    pub y: i32,
}

/// A displacement between two points.
#[derive(Clone, Copy, Debug, PartialEq, Eq, Structural)]
pub struct Offset {
    pub x: i32,
    pub y: i32,
}

/// An axis-aligned rectangle; `min` is the top-left corner, `max` the
/// bottom-right one.
#[derive(Clone, Copy, Debug, PartialEq, Eq, Structural)]
pub struct Rect {
    pub min: Point,
    pub max: Point,
}

/// A vertical extent, from `min` (top) to `max` (bottom).
#[derive(Clone, Copy, Debug, PartialEq, Eq, Structural)]
pub struct YRange {
    pub min: i32,
    pub max: i32,
}

impl Offset {
    /// The zero displacement.
    pub fn zero() -> (r: Offset)
        ensures
            r.x == 0,
            r.y == 0,
    {
        Offset { x: 0, y: 0 }
    }
}

impl Point {
    /// The displacement that carries `origin` to `self`.
    pub fn offset_from(self, origin: Point) -> (r: Offset)
        requires
            i32::MIN <= self.x - origin.x <= i32::MAX,
            i32::MIN <= self.y - origin.y <= i32::MAX,
        ensures
            r.x == self.x - origin.x,
            r.y == self.y - origin.y,
    {
        Offset { x: self.x - origin.x, y: self.y - origin.y }
    }

    /// The point displaced from `self` by `o`.
    pub fn translate(self, o: Offset) -> (r: Point)
        requires
            i32::MIN <= self.x + o.x <= i32::MAX,
            i32::MIN <= self.y + o.y <= i32::MAX,
        ensures
            r.x == self.x + o.x,
            r.y == self.y + o.y,
    {
        Point { x: self.x + o.x, y: self.y + o.y }
    }
}

impl Rect {
    /// A rectangle is well formed when its corners are ordered.
    pub open spec fn wf(self) -> bool {
        self.min.x <= self.max.x && self.min.y <= self.max.y
    }

    pub open spec fn spec_width(self) -> int {
        self.max.x - self.min.x
    }

    pub open spec fn spec_height(self) -> int {
        self.max.y - self.min.y
    }
}

impl YRange {
    /// A range is well formed when its bounds are ordered.
    pub open spec fn wf(self) -> bool {
        self.min <= self.max
    }
}

} // verus!
