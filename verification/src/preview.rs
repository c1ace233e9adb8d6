//! The live preview: a chain of visible line segments over the committed
//! points, rebuilt from scratch every frame. Purely visual, transient state;
//! the session never reads it back.

use vstd::prelude::*;
use crate::geom::Point;

verus! {

/// One renderable preview line segment.
#[derive(Clone, Copy, PartialEq, Eq, Structural, Debug)]
pub struct Segment {
    pub a: Point,
    pub b: Point,
}

/// Rebuild the preview: one segment per consecutive pair of committed
/// points, in insertion order; fewer than two points preview nothing.
pub fn preview_segments(points: &Vec<Point>) -> (segs: Vec<Segment>)
    ensures
        points@.len() < 2 ==> segs@.len() == 0,
        points@.len() >= 2 ==> segs@.len() == points@.len() - 1,
        forall|i: int|
            0 <= i < segs@.len() ==> #[trigger] segs@[i] == (Segment {
                a: points@[i],
                b: points@[i + 1],
            }),
{
    let mut segs: Vec<Segment> = Vec::new();
    if points.len() < 2 {
        return segs;
    }
    let mut i: usize = 0;
    while i < points.len() - 1
        invariant
            points@.len() >= 2,
            0 <= i <= points@.len() - 1,
            segs@.len() == i,
            forall|k: int|
                0 <= k < i ==> #[trigger] segs@[k] == (Segment {
                    a: points@[k],
                    b: points@[k + 1],
                }),
        decreases points@.len() - i,
    {
        segs.push(Segment { a: points[i], b: points[i + 1] });
        i = i + 1;
    }
    segs
}

} // verus!
