use vstd::prelude::*;

verus! {

/// Length units in one pixel: coordinates are thousandths of a pixel.
pub const UNITS_PER_PIXEL: i64 = 1000;

/// Largest magnitude of a pointer coordinate (2^40 units) that the tools take.
pub const COORD_LIMIT: i64 = 0x100_0000_0000;

/// A point in screen or image space, in thousandths of a pixel.
#[derive(Clone, Copy, Debug, PartialEq, Eq, Structural)]
pub struct Point {
    pub x: i64,
    pub y: i64,
}

impl Point {
    pub fn new(x: i64, y: i64) -> (r: Point)
        ensures
            r.x == x,
            r.y == y,
    {
        Point { x, y }
    }

    pub open spec fn zero_spec() -> Point {
        Point { x: 0, y: 0 }
    }

    /// The origin.
    pub fn zero() -> (r: Point)
        ensures
            r == Point::zero_spec(),
    {
        Point { x: 0, y: 0 }
    }

    /// Both coordinates lie within `[-limit, limit]`.
    pub open spec fn within(self, limit: int) -> bool {
        -limit <= self.x <= limit && -limit <= self.y <= limit
    }
}

} // verus!
