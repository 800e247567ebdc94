//! Points and circular regions, with an exact integer containment test.

use vstd::prelude::*;

verus! {

/// An integer 2D coordinate. A plain value with no identity.
#[derive(Clone, Copy, Debug, PartialEq, Eq)]
pub struct Point {
    pub x: i32,
    pub y: i32,
}

/// A circular region of the board, immutable once constructed.
#[derive(Clone, Copy, Debug, PartialEq, Eq)]
pub struct Circle {
    pub center: Point,
    pub radius: i32,
}

impl Circle {
    /// Squared Euclidean distance from `(x, y)` to the circle's center,
    /// in exact integer arithmetic.
    pub open spec fn sq_dist(self, x: int, y: int) -> int {
        (x - self.center.x) * (x - self.center.x) + (y - self.center.y) * (y - self.center.y)
    }

    /// A point lies in the circle iff its squared distance to the center is
    /// at most the squared radius, so a point exactly on the circumference
    /// counts as inside.
    pub open spec fn spec_contains(self, x: int, y: int) -> bool {
        self.sq_dist(x, y) <= self.radius * self.radius
    }

    pub fn new(x: i32, y: i32, radius: i32) -> (c: Self)
        requires
            radius > 0,
        ensures
            c.center.x == x,
            c.center.y == y,
            c.radius == radius,
    {
        Self { center: Point { x, y }, radius }
    }

    /// Exact membership test: true iff the squared distance from `(x, y)`
    /// to the center is at most the squared radius.
    pub fn contains(self, x: i32, y: i32) -> (r: bool)
        ensures
            r == self.spec_contains(x as int, y as int),
    {
        contains_wide(self, x as i64, y as i64)
    }
}

/// The containment test on coordinates somewhat wider than `i32`, so that a
/// note's center (a position plus half a size) can be tested as well. The
/// bound keeps every intermediate product comfortably inside `i128`.
pub(crate) fn contains_wide(c: Circle, x: i64, y: i64) -> (r: bool)
    requires
        -0x4_0000_0000 <= x <= 0x4_0000_0000,
        -0x4_0000_0000 <= y <= 0x4_0000_0000,
    ensures
        r == c.spec_contains(x as int, y as int),
{
    let dx: i128 = x as i128 - c.center.x as i128;
    let dy: i128 = y as i128 - c.center.y as i128;
    let rad: i128 = c.radius as i128;
    proof {
        assert(dx * dx <= 0x100_0000_0000_0000_0000 && dx * dx >= 0) by (nonlinear_arith)
            requires
                -0x8_0000_0000 <= dx <= 0x8_0000_0000,
        ;
        assert(dy * dy <= 0x100_0000_0000_0000_0000 && dy * dy >= 0) by (nonlinear_arith)
            requires
                -0x8_0000_0000 <= dy <= 0x8_0000_0000,
        ;
        assert(rad * rad <= 0x4000_0000_0000_0000 && rad * rad >= 0) by (nonlinear_arith)
            requires
                -0x8000_0000 <= rad <= 0x8000_0000,
        ;
    }
    dx * dx + dy * dy <= rad * rad
}

} // verus!
