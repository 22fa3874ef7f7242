//! Rectangles in virtual-desktop coordinates.
//!
//! Positions are signed, sizes unsigned; edge arithmetic is carried out
//! over mathematical integers in specifications and over `i64` in
//! executable code, so no bound computation can overflow.

use vstd::prelude::*;

verus! {

/// An axis-aligned rectangle: origin `(x, y)`, extent `width x height`.
/// A point on the left or top edge is inside; one on the right or
/// bottom edge is not.
#[derive(Clone, Copy, Debug, PartialEq, Eq, Structural)]
pub struct Rect {
    pub x: i32,
    pub y: i32,
    pub width: u32,
    pub height: u32,
}

impl Rect {
    /// Exclusive right edge, as a mathematical integer.
    pub open spec fn spec_right(self) -> int {
        self.x + self.width
    }

    /// Exclusive bottom edge, as a mathematical integer.
    pub open spec fn spec_bottom(self) -> int {
        self.y + self.height
    }

    pub open spec fn spec_contains_point(self, px: int, py: int) -> bool {
        &&& self.x <= px < self.spec_right()
        &&& self.y <= py < self.spec_bottom()
    }

    /// The two rectangles share at least one point.
    pub open spec fn spec_intersects(self, other: Rect) -> bool {
        &&& vstd::math::max(self.x as int, other.x as int)
            < vstd::math::min(self.spec_right(), other.spec_right())
        &&& vstd::math::max(self.y as int, other.y as int)
            < vstd::math::min(self.spec_bottom(), other.spec_bottom())
    }

    /// Width of the overlap of the horizontal extents, zero when disjoint.
    pub open spec fn spec_overlap_w(self, other: Rect) -> int {
        vstd::math::max(
            0,
            vstd::math::min(self.spec_right(), other.spec_right()) - vstd::math::max(
                self.x as int,
                other.x as int,
            ),
        )
    }

    /// Height of the overlap of the vertical extents, zero when disjoint.
    pub open spec fn spec_overlap_h(self, other: Rect) -> int {
        vstd::math::max(
            0,
            vstd::math::min(self.spec_bottom(), other.spec_bottom()) - vstd::math::max(
                self.y as int,
                other.y as int,
            ),
        )
    }

    /// Area of the geometric intersection.
    pub open spec fn spec_intersection_area(self, other: Rect) -> int {
        self.spec_overlap_w(other) * self.spec_overlap_h(other)
    }

    /// Exclusive right edge.
    pub fn right(&self) -> (r: i64)
        ensures
            r == self.spec_right(),
    {
        (self.x as i64) + (self.width as i64)
    }

    /// Exclusive bottom edge.
    pub fn bottom(&self) -> (r: i64)
        ensures
            r == self.spec_bottom(),
    {
        (self.y as i64) + (self.height as i64)
    }

    pub fn contains_point(&self, px: i64, py: i64) -> (r: bool)
        ensures
            r == self.spec_contains_point(px as int, py as int),
    {
        (self.x as i64) <= px && px < self.right() && (self.y as i64) <= py && py < self.bottom()
    }

    pub fn intersects(&self, other: &Rect) -> (r: bool)
        ensures
            r == self.spec_intersects(*other),
    {
        let lx: i64 = if self.x >= other.x {
            self.x as i64
        } else {
            other.x as i64
        };
        let rx: i64 = if self.right() <= other.right() {
            self.right()
        } else {
            other.right()
        };
        let ly: i64 = if self.y >= other.y {
            self.y as i64
        } else {
            other.y as i64
        };
        let by: i64 = if self.bottom() <= other.bottom() {
            self.bottom()
        } else {
            other.bottom()
        };
        lx < rx && ly < by
    }

    /// Area of the geometric intersection of the two rectangles.
    pub fn intersection_area(&self, other: &Rect) -> (r: u64)
        ensures
            r == self.spec_intersection_area(*other),
    {
        let lx: i64 = if self.x >= other.x {
            self.x as i64
        } else {
            other.x as i64
        };
        let rx: i64 = if self.right() <= other.right() {
            self.right()
        } else {
            other.right()
        };
        let ly: i64 = if self.y >= other.y {
            self.y as i64
        } else {
            other.y as i64
        };
        let by: i64 = if self.bottom() <= other.bottom() {
            self.bottom()
        } else {
            other.bottom()
        };
        let ow: i64 = if rx - lx >= 0 {
            rx - lx
        } else {
            0
        };
        let oh: i64 = if by - ly >= 0 {
            by - ly
        } else {
            0
        };
        assert(ow == self.spec_overlap_w(*other));
        assert(oh == self.spec_overlap_h(*other));
        assert(0 <= ow <= u32::MAX && 0 <= oh <= u32::MAX);
        assert((ow as u64) * (oh as u64) <= ((u32::MAX as u64) * (u32::MAX as u64)))
            by (nonlinear_arith)
            requires
                0 <= ow <= u32::MAX && 0 <= oh <= u32::MAX,
        ;
        (ow as u64) * (oh as u64)
    }
}

} // verus!
