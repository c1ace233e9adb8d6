//! The path finalizer: on stroke release, compute the bounding box over the
//! committed points, normalize them to box-local y-down space, serialize the
//! path document, and compute the placement coordinate (the box center).

use vstd::prelude::*;
use crate::geom::{Point, session_bounds};
use crate::doc::{document_chars, filename_chars, render_document, render_filename};

verus! {

/// The output artifact of one finalized stroke. Produced once per stroke;
/// the session that fed it is reset immediately after.
pub struct FinalizedStroke {
    /// Least x coordinate over the committed points.
    pub min_x: i64,
    /// Least y coordinate over the committed points.
    pub min_y: i64,
    /// Greatest x coordinate over the committed points.
    pub max_x: i64,
    /// Greatest y coordinate over the committed points.
    pub max_y: i64,
    /// Canvas width: `max_x - min_x`.
    pub width: i64,
    /// Canvas height: `max_y - min_y`.
    pub height: i64,
    /// The committed points in box-local document space: `x - min_x`,
    /// `max_y - y` (drawing space is y-up, document space is y-down).
    pub normalized: Vec<Point>,
    /// The serialized path document.
    pub document: String,
    /// The sequential index naming this stroke.
    pub index: u64,
    /// The filename the document is to be stored under.
    pub filename: String,
    /// The bounding-box center in drawing space (components rounded down):
    /// where the placed graphic is anchored.
    pub center: Point,
}

/// The four values are the per-axis minima and maxima over `pts`.
pub open spec fn is_bbox(pts: Seq<Point>, min_x: int, min_y: int, max_x: int, max_y: int) -> bool {
    &&& forall|i: int| 0 <= i < pts.len() ==> min_x <= (#[trigger] pts[i]).x <= max_x
    &&& forall|i: int| 0 <= i < pts.len() ==> min_y <= (#[trigger] pts[i]).y <= max_y
    &&& exists|i: int| 0 <= i < pts.len() && (#[trigger] pts[i]).x == min_x
    &&& exists|i: int| 0 <= i < pts.len() && (#[trigger] pts[i]).x == max_x
    &&& exists|i: int| 0 <= i < pts.len() && (#[trigger] pts[i]).y == min_y
    &&& exists|i: int| 0 <= i < pts.len() && (#[trigger] pts[i]).y == max_y
}

/// The artifact `fs` is exactly what finalizing the committed points `pts`
/// as stroke number `index` produces.
pub open spec fn finalized_from(fs: FinalizedStroke, pts: Seq<Point>, index: nat) -> bool {
    &&& is_bbox(pts, fs.min_x as int, fs.min_y as int, fs.max_x as int, fs.max_y as int)
    &&& fs.width == fs.max_x - fs.min_x
    &&& fs.height == fs.max_y - fs.min_y
    &&& fs.normalized@.len() == pts.len()
    &&& forall|i: int|
        0 <= i < pts.len() ==> (#[trigger] fs.normalized@[i]).x == pts[i].x - fs.min_x
            && fs.normalized@[i].y == fs.max_y - pts[i].y
    &&& fs.center.x == fs.min_x + (fs.max_x - fs.min_x) / 2
    &&& fs.center.y == fs.min_y + (fs.max_y - fs.min_y) / 2
    &&& fs.index == index
    &&& fs.document@ == document_chars(fs.width as nat, fs.height as nat, fs.normalized@)
    &&& fs.filename@ == filename_chars(index)
}

/// Compute the per-axis bounding box over a non-empty point record.
fn bounding_box(pts: &Vec<Point>) -> (r: (i64, i64, i64, i64))
    requires
        pts@.len() > 0,
    ensures
        is_bbox(pts@, r.0 as int, r.1 as int, r.2 as int, r.3 as int),
{
    let first = pts[0];
    let mut min_x = first.x;
    let mut min_y = first.y;
    let mut max_x = first.x;
    let mut max_y = first.y;
    let mut i: usize = 1;
    while i < pts.len()
        invariant
            1 <= i <= pts@.len(),
            forall|k: int| 0 <= k < i ==> min_x <= (#[trigger] pts@[k]).x <= max_x,
            forall|k: int| 0 <= k < i ==> min_y <= (#[trigger] pts@[k]).y <= max_y,
            exists|k: int| 0 <= k < i && (#[trigger] pts@[k]).x == min_x,
            exists|k: int| 0 <= k < i && (#[trigger] pts@[k]).x == max_x,
            exists|k: int| 0 <= k < i && (#[trigger] pts@[k]).y == min_y,
            exists|k: int| 0 <= k < i && (#[trigger] pts@[k]).y == max_y,
        decreases pts@.len() - i,
    {
        let p = pts[i];
        if p.x < min_x {
            min_x = p.x;
        }
        if p.x > max_x {
            max_x = p.x;
        }
        if p.y < min_y {
            min_y = p.y;
        }
        if p.y > max_y {
            max_y = p.y;
        }
        i = i + 1;
    }
    (min_x, min_y, max_x, max_y)
}

/// Finalize one captured stroke: bounding box, normalization, document and
/// filename, and the placement coordinate. A single-point stroke yields a
/// zero-size box and a one-vertex path.
pub fn finalize_stroke(pts: &Vec<Point>, index: u64) -> (fs: FinalizedStroke)
    requires
        pts@.len() > 0,
        forall|i: int| 0 <= i < pts@.len() ==> session_bounds(#[trigger] pts@[i]),
    ensures
        finalized_from(fs, pts@, index as nat),
        forall|i: int|
            0 <= i < fs.normalized@.len() ==> 0 <= (#[trigger] fs.normalized@[i]).x <= fs.width
                && 0 <= fs.normalized@[i].y <= fs.height,
{
    let (min_x, min_y, max_x, max_y) = bounding_box(pts);
    let width = max_x - min_x;
    let height = max_y - min_y;
    let mut normalized: Vec<Point> = Vec::new();
    let mut i: usize = 0;
    while i < pts.len()
        invariant
            0 <= i <= pts@.len(),
            pts@.len() > 0,
            forall|k: int| 0 <= k < pts@.len() ==> session_bounds(#[trigger] pts@[k]),
            is_bbox(pts@, min_x as int, min_y as int, max_x as int, max_y as int),
            normalized@.len() == i,
            forall|k: int|
                0 <= k < i ==> (#[trigger] normalized@[k]).x == pts@[k].x - min_x
                    && normalized@[k].y == max_y - pts@[k].y,
        decreases pts@.len() - i,
    {
        let p = pts[i];
        normalized.push(Point { x: p.x - min_x, y: max_y - p.y });
        i = i + 1;
    }
    proof {
        assert(forall|k: int|
            0 <= k < normalized@.len() ==> 0 <= (#[trigger] normalized@[k]).x && 0
                <= normalized@[k].y);
    }
    let document = render_document(width as u64, height as u64, &normalized);
    let filename = render_filename(index);
    let center = Point { x: min_x + ((width as u64) / 2) as i64, y: min_y + ((height as u64) / 2) as i64 };
    FinalizedStroke {
        min_x,
        min_y,
        max_x,
        max_y,
        width,
        height,
        normalized,
        document,
        index,
        filename,
        center,
    }
}

} // verus!
