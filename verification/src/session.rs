//! The stroke session: the mutable, ordered record of all committed points
//! of the stroke in progress, plus the counter that names finalized strokes.

use vstd::prelude::*;
use crate::geom::{Point, in_bounds, session_bounds};
use crate::follow::{FollowConfig, follow, follow_rel};
use crate::finalize::{FinalizedStroke, finalize_stroke, finalized_from};

verus! {

/// One drawing session, reused across strokes for the life of the process.
pub struct StrokeSession {
    /// Committed points of the stroke in progress, in capture order;
    /// append-only during a stroke, cleared atomically at finalize.
    pub points: Vec<Point>,
    /// The most recently committed point, or `None` before the first point
    /// of a stroke.
    pub last_point: Option<Point>,
    /// Names each finalized stroke; increases by exactly one per finalize,
    /// never reused.
    pub stroke_counter: u64,
}

impl StrokeSession {
    /// Session invariant: the cached last point is set exactly when points
    /// are recorded and then equals the last committed point, and every
    /// committed point lies within session bounds.
    pub open spec fn wf(self) -> bool {
        &&& self.points@.len() == 0 ==> self.last_point is None
        &&& self.points@.len() > 0 ==> self.last_point == Some(self.points@.last())
        &&& forall|i: int|
            0 <= i < self.points@.len() ==> session_bounds(#[trigger] self.points@[i])
    }

    /// A fresh session: no points, no last point, counter at zero.
    pub fn new() -> (s: StrokeSession)
        ensures
            s.wf(),
            s.points@.len() == 0,
            s.last_point is None,
            s.stroke_counter == 0,
    {
        StrokeSession { points: Vec::new(), last_point: None, stroke_counter: 0 }
    }

    /// Whether a stroke is in progress.
    pub open spec fn spec_has_active_stroke(self) -> bool {
        self.points@.len() > 0
    }

    pub fn has_active_stroke(&self) -> (b: bool)
        ensures
            b == self.spec_has_active_stroke(),
    {
        self.points.len() > 0
    }

    /// Commit one pointer target: run the follow filter from the current
    /// last point, push the committed result, and cache it as the new last
    /// point.
    pub fn append_target(&mut self, target: Point, config: &FollowConfig)
        requires
            old(self).wf(),
            in_bounds(target),
            config.wf(),
        ensures
            final(self).wf(),
            final(self).points@ == old(self).points@.push(final(self).points@.last()),
            follow_rel(
                old(self).last_point,
                target,
                config.speed as int,
                final(self).points@.last(),
            ),
            final(self).last_point == Some(final(self).points@.last()),
            final(self).stroke_counter == old(self).stroke_counter,
    {
        let p = follow(self.last_point, target, config.speed);
        self.points.push(p);
        self.last_point = Some(p);
    }

    /// Finalize the stroke in progress and reset the session: produce the
    /// artifact over the committed points, then clear them, unset the last
    /// point, and advance the stroke counter by exactly one.
    pub fn finalize_and_reset(&mut self) -> (fs: FinalizedStroke)
        requires
            old(self).wf(),
            old(self).spec_has_active_stroke(),
            old(self).stroke_counter < u64::MAX,
        ensures
            final(self).wf(),
            final(self).points@.len() == 0,
            final(self).last_point is None,
            final(self).stroke_counter == old(self).stroke_counter + 1,
            fs.index == old(self).stroke_counter,
            finalized_from(fs, old(self).points@, old(self).stroke_counter as nat),
            forall|i: int|
                0 <= i < fs.normalized@.len() ==> 0 <= (#[trigger] fs.normalized@[i]).x
                    <= fs.width && 0 <= fs.normalized@[i].y <= fs.height,
    {
        let fs = finalize_stroke(&self.points, self.stroke_counter);
        self.points.clear();
        self.last_point = None;
        self.stroke_counter = self.stroke_counter + 1;
        fs
    }

    /// One frame of the capture pipeline, as the host loop drives it: while
    /// the button is held, the resolved target is committed through the
    /// follow filter; on the frame the button is released, an active stroke
    /// is finalized and the session reset; otherwise nothing changes.
    pub fn frame(
        &mut self,
        pressed: bool,
        just_released: bool,
        target: Point,
        config: &FollowConfig,
    ) -> (out: Option<FinalizedStroke>)
        requires
            old(self).wf(),
            in_bounds(target),
            config.wf(),
            old(self).stroke_counter < u64::MAX,
        ensures
            final(self).wf(),
            pressed ==> {
                &&& out is None
                &&& final(self).points@ == old(self).points@.push(final(self).points@.last())
                &&& follow_rel(
                    old(self).last_point,
                    target,
                    config.speed as int,
                    final(self).points@.last(),
                )
                &&& final(self).last_point == Some(final(self).points@.last())
                &&& final(self).stroke_counter == old(self).stroke_counter
            },
            !pressed && just_released && old(self).spec_has_active_stroke() ==> {
                &&& out is Some
                &&& finalized_from(
                    out.unwrap(),
                    old(self).points@,
                    old(self).stroke_counter as nat,
                )
                &&& out.unwrap().index == old(self).stroke_counter
                &&& final(self).points@.len() == 0
                &&& final(self).last_point is None
                &&& final(self).stroke_counter == old(self).stroke_counter + 1
            },
            !pressed && !(just_released && old(self).spec_has_active_stroke()) ==> out is None
                && *final(self) == *old(self),
    {
        if pressed {
            self.append_target(target, config);
            None
        } else if just_released {
            if self.has_active_stroke() {
                Some(self.finalize_and_reset())
            } else {
                None
            }
        } else {
            None
        }
    }
}

/// Session invariant, as an observation: after any sequence of operations
/// that preserve well-formedness, the cached last point is set exactly when
/// the point record is non-empty, and then equals the last committed point.
pub proof fn lemma_session_invariant(s: StrokeSession)
    requires
        s.wf(),
    ensures
        (s.last_point is Some) <==> s.points@.len() > 0,
        s.points@.len() > 0 ==> s.last_point == Some(s.points@.last()),
{
}

} // verus!
