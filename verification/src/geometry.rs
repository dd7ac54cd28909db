//! Integral layout geometry: points, sizes, rectangles, padding.
//!
//! Coordinates are `i64` pixels. Screen-sized inputs (anchors, viewport
//! sizes, configured widths) are *small*: they fit in `[-MAX_EXTENT,
//! MAX_EXTENT]`. Rectangles produced by layout may combine a few small
//! values, so their well-formedness allows the wider `coord_ok` range,
//! chosen so that the arithmetic of hit tests and row placement can never
//! overflow an `i64`.

use vstd::prelude::*;

verus! {

/// Largest magnitude of a screen-sized quantity: an anchor coordinate,
/// a viewport extent, a configured width or height.
pub const MAX_EXTENT: i64 = 0x4000_0000;

/// Bound on a derived rectangle coordinate: the sum of up to three
/// screen-sized quantities. Two such coordinates can be added without
/// overflowing an `i64`, and a derived vertical distance still fits in
/// a `usize` even on a 32-bit machine.
pub open spec fn coord_ok(v: int) -> bool {
    -0xC000_0000 <= v <= 0xC000_0000
}

/// Bound on a derived rectangle extent (a width or height).
pub open spec fn extent_ok(v: int) -> bool {
    0 <= v <= 0x8000_0000
}

/// Whether `v` is a screen-sized quantity.
pub open spec fn small(v: int) -> bool {
    -0x4000_0000 <= v <= 0x4000_0000
}

/// A position on the screen.
#[derive(Clone, Copy, Debug, PartialEq, Eq, Structural)]
pub struct Point {
    pub x: i64,
    pub y: i64,
}

/// An amount of two-dimensional space.
#[derive(Clone, Copy, Debug, PartialEq, Eq, Structural)]
pub struct Size {
    pub width: i64,
    pub height: i64,
}

/// An axis-aligned rectangle: origin plus size.
#[derive(Clone, Copy, Debug, PartialEq, Eq, Structural)]
pub struct Rectangle {
    pub x: i64,
    pub y: i64,
    pub width: i64,
    pub height: i64,
}

/// Space around the content of a box, one amount per edge.
#[derive(Clone, Copy, Debug, PartialEq, Eq, Structural)]
pub struct Padding {
    pub top: i64,
    pub right: i64,
    pub bottom: i64,
    pub left: i64,
}

impl Point {
    /// Whether both coordinates are screen-sized.
    pub open spec fn wf(self) -> bool {
        small(self.x as int) && small(self.y as int)
    }

    pub fn new(x: i64, y: i64) -> (p: Point)
        ensures
            p == (Point { x, y }),
    {
        Point { x, y }
    }
}

/// The off-screen cursor substituted for the real one when an inner
/// overlay occludes an outer one: no on-screen rectangle contains it.
pub open spec fn spec_sentinel() -> Point {
    Point { x: -1i64, y: -1i64 }
}

/// Returns the sentinel off-screen cursor.
pub fn sentinel() -> (p: Point)
    ensures
        p == spec_sentinel(),
        p.wf(),
{
    Point { x: -1i64, y: -1i64 }
}

impl Size {
    /// A size is well-formed when both extents are non-negative and
    /// screen-sized.
    pub open spec fn wf(self) -> bool {
        0 <= self.width <= MAX_EXTENT && 0 <= self.height <= MAX_EXTENT
    }

    pub fn new(width: i64, height: i64) -> (s: Size)
        ensures
            s == (Size { width, height }),
    {
        Size { width, height }
    }
}

impl Rectangle {
    /// A rectangle is well-formed when its origin is a derived
    /// coordinate and its size a derived extent.
    pub open spec fn wf(self) -> bool {
        &&& coord_ok(self.x as int)
        &&& coord_ok(self.y as int)
        &&& extent_ok(self.width as int)
        &&& extent_ok(self.height as int)
    }

    /// Whether `p` lies inside the rectangle; the right and bottom edges
    /// are exclusive.
    pub open spec fn spec_contains(self, p: Point) -> bool {
        &&& self.x <= p.x < self.x + self.width
        &&& self.y <= p.y < self.y + self.height
    }

    /// Hit test against a point.
    pub fn contains(&self, p: Point) -> (r: bool)
        requires
            self.wf(),
        ensures
            r == self.spec_contains(p),
    {
        self.x <= p.x && p.x < self.x + self.width && self.y <= p.y && p.y < self.y + self.height
    }
}

impl Padding {
    /// Zero space on every edge.
    pub fn zero() -> (p: Padding)
        ensures
            p == (Padding { top: 0, right: 0, bottom: 0, left: 0 }),
    {
        Padding { top: 0, right: 0, bottom: 0, left: 0 }
    }

    /// All four amounts are non-negative and screen-sized.
    pub open spec fn wf(self) -> bool {
        &&& 0 <= self.top <= MAX_EXTENT
        &&& 0 <= self.right <= MAX_EXTENT
        &&& 0 <= self.bottom <= MAX_EXTENT
        &&& 0 <= self.left <= MAX_EXTENT
    }

    /// The space taken on the vertical axis.
    pub open spec fn spec_vertical(self) -> int {
        self.top + self.bottom
    }

    /// Returns the total vertical space.
    pub fn vertical(&self) -> (v: i64)
        requires
            self.wf(),
        ensures
            v == self.spec_vertical(),
    {
        self.top + self.bottom
    }
}

} // verus!
