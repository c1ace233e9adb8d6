//! Drawing-space geometry: fixed-point integer points and their bounds.

use vstd::prelude::*;

verus! {

/// Largest coordinate magnitude the pipeline accepts for a pointer target.
/// Committed points may overshoot a target by at most one step, so session
/// points stay within twice this bound; all intermediate arithmetic in the
/// pipeline is proved free of overflow under these limits.
pub const COORD_LIMIT: i64 = 1_000_000;

/// A 2D drawing-space coordinate, in fixed-point integer units.
/// Immutable once appended to a stroke.
#[derive(Clone, Copy, PartialEq, Eq, Structural, Debug)]
pub struct Point {
    pub x: i64,
    pub y: i64,
}

/// A pointer target resolved into drawing space lies within `COORD_LIMIT`.
pub open spec fn in_bounds(p: Point) -> bool {
    &&& -COORD_LIMIT <= p.x <= COORD_LIMIT
    &&& -COORD_LIMIT <= p.y <= COORD_LIMIT
}

/// Committed stroke points can overshoot a target by at most one step,
/// so they stay within twice `COORD_LIMIT`.
pub open spec fn session_bounds(p: Point) -> bool {
    &&& -2 * COORD_LIMIT <= p.x <= 2 * COORD_LIMIT
    &&& -2 * COORD_LIMIT <= p.y <= 2 * COORD_LIMIT
}

/// Squared Euclidean distance between two points.
pub open spec fn dist2(a: Point, b: Point) -> int {
    (a.x - b.x) * (a.x - b.x) + (a.y - b.y) * (a.y - b.y)
}

/// Absolute value over mathematical integers.
pub open spec fn abs_int(x: int) -> int {
    if x < 0 {
        -x
    } else {
        x
    }
}

} // verus!
