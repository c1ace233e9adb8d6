//! The coordinate resolver: maps a raw device-pointer position (origin
//! top-left, y down, device pixels) into drawing space, using the viewport
//! size and the camera's drawing-space translation.

use vstd::prelude::*;
use crate::geom::{Point, COORD_LIMIT, in_bounds};

verus! {

/// What the resolver computes, x axis: recenter the device x coordinate on
/// the middle of the viewport, then translate by the camera's drawing-space
/// position. A missing pointer position resolves from the default device
/// origin; callers must treat that result as "unknown", not as a drawn
/// point.
pub open spec fn resolved_x(cursor: Option<Point>, width: int, camera: Point) -> int {
    let cx: int = match cursor {
        None => 0,
        Some(c) => c.x as int,
    };
    cx - width / 2 + camera.x
}

/// What the resolver computes, y axis: flip the device y coordinate to make
/// the origin bottom-left, recenter on the middle of the viewport, then
/// translate by the camera's drawing-space position.
pub open spec fn resolved_y(cursor: Option<Point>, height: int, camera: Point) -> int {
    let cy: int = match cursor {
        None => 0,
        Some(c) => c.y as int,
    };
    (height - cy) - height / 2 + camera.y
}

/// Resolve a device-pointer position to a drawing-space coordinate.
pub fn resolve_pointer(cursor: Option<Point>, width: i64, height: i64, camera: Point) -> (r: Point)
    requires
        0 <= width <= COORD_LIMIT,
        0 <= height <= COORD_LIMIT,
        cursor matches Some(c) ==> 0 <= c.x <= width && 0 <= c.y <= height,
        -COORD_LIMIT / 2 <= camera.x <= COORD_LIMIT / 2,
        -COORD_LIMIT / 2 <= camera.y <= COORD_LIMIT / 2,
    ensures
        r.x == resolved_x(cursor, width as int, camera),
        r.y == resolved_y(cursor, height as int, camera),
        in_bounds(r),
{
    let (cx, cy): (i64, i64) = match cursor {
        None => (0, 0),
        Some(c) => (c.x, c.y),
    };
    let half_w: i64 = ((width as u64) / 2) as i64;
    let half_h: i64 = ((height as u64) / 2) as i64;
    Point { x: cx - half_w + camera.x, y: (height - cy) - half_h + camera.y }
}

} // verus!
