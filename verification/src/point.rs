//! Positions on the plane.
use vstd::prelude::*;

verus! {

/// A position, in units, relative to some origin.
#[derive(Debug, Clone, Copy, PartialEq, Eq, Structural)]
pub struct Point {
    /// The horizontal coordinate, growing to the right.
    pub x: i64,
    /// The vertical coordinate, growing downwards.
    pub y: i64,
}

/// The coordinate nearest to `v` that an `i64` can hold.
pub open spec fn clip(v: int) -> i64 {
    if v < i64::MIN {
        i64::MIN
    } else if v > i64::MAX {
        i64::MAX
    } else {
        v as i64
    }
}

/// Adds two coordinates, stopping at the limits of `i64`.
pub fn saturating_sum(a: i64, b: i64) -> (sum: i64)
    ensures
        sum == clip(a + b),
{
    match a.checked_add(b) {
        Some(sum) => sum,
        None => if a < 0 {
            i64::MIN
        } else {
            i64::MAX
        },
    }
}

impl Point {
    /// The position `(0, 0)`.
    pub open spec fn spec_origin() -> Point {
        Point { x: 0, y: 0 }
    }

    /// The position `(0, 0)`.
    #[verifier::when_used_as_spec(spec_origin)]
    pub fn origin() -> (p: Point)
        ensures
            p == Self::spec_origin(),
    {
        Point { x: 0, y: 0 }
    }

    /// Creates the position `(x, y)`.
    pub fn new(x: i64, y: i64) -> (p: Point)
        ensures
            p == (Point { x, y }),
    {
        Point { x, y }
    }

    /// This position moved by `by`, each coordinate clipped to `i64`.
    pub open spec fn spec_offset(self, by: Point) -> Point {
        Point { x: clip(self.x + by.x), y: clip(self.y + by.y) }
    }

    /// Moves this position by `by`, saturating on each axis.
    #[verifier::when_used_as_spec(spec_offset)]
    pub fn offset(self, by: Point) -> (p: Point)
        ensures
            p == self.spec_offset(by),
    {
        Point { x: saturating_sum(self.x, by.x), y: saturating_sum(self.y, by.y) }
    }
}

} // verus!
