//! End-to-end tests of the capture pipeline: the follow filter, the stroke
//! session, the finalizer and serializer, the preview, and the resolver.

use svgdraw::{FollowConfig, Point, Segment, StrokeSession};

fn pt(x: i64, y: i64) -> Point {
    Point { x, y }
}

// Follow-filter rest: pursuing the point the filter already sits on moves
// nothing.
#[test]
fn follow_rest_is_identity() {
    let l = pt(7, -3);
    let r = svgdraw::follow(Some(l), l, 5);
    assert_eq!(r, l);
    let l2 = pt(-250_000, 999_999);
    let r2 = svgdraw::follow(Some(l2), l2, 1_000_000);
    assert_eq!(r2, l2);
}

// First-point exactness: with no previous point the target is committed
// exactly, whatever the speed.
#[test]
fn follow_first_point_exact() {
    assert_eq!(svgdraw::follow(None, pt(3, 4), 5), pt(3, 4));
    assert_eq!(svgdraw::follow(None, pt(-9, 0), 1), pt(-9, 0));
    assert_eq!(svgdraw::follow(None, pt(0, 0), 1_000_000), pt(0, 0));
}

// Step bound: a step toward a distinct target has squared length at most
// speed * speed, and each component is the floor of the exact component.
#[test]
fn follow_step_bound() {
    // Diagonal: exact step would be (5/sqrt 2, 5/sqrt 2) ~ (3.53, 3.53).
    let r = svgdraw::follow(Some(pt(0, 0)), pt(1, 1), 5);
    assert_eq!(r, pt(3, 3));
    let d2 = r.x * r.x + r.y * r.y;
    assert!(d2 <= 25);
    assert!((r.x + 1) * (r.x + 1) + (r.y + 1) * (r.y + 1) > 25);
    // Axis-aligned steps are exact.
    assert_eq!(svgdraw::follow(Some(pt(0, 0)), pt(100, 0), 5), pt(5, 0));
    assert_eq!(svgdraw::follow(Some(pt(2, 2)), pt(2, -100), 7), pt(2, -5));
    // 3-4-5 triangle: exact.
    assert_eq!(svgdraw::follow(Some(pt(0, 0)), pt(30, 40), 5), pt(3, 4));
}

// Constant-step overshoot: targets nearer than the speed are overshot, not
// clamped.
#[test]
fn follow_overshoots_near_target() {
    // Target (3,0) is 3 away; a speed-5 step lands at (5,0), past it.
    assert_eq!(svgdraw::follow(Some(pt(0, 0)), pt(3, 0), 5), pt(5, 0));
}

// Capture targets (0,0), (3,0), (3,4) with speed 5 from an empty session:
// first point exact, then the constant-step pursuit.
#[test]
fn capture_scenario_constant_step() {
    let config = FollowConfig::new(5);
    let mut session = StrokeSession::new();
    session.append_target(pt(0, 0), &config);
    assert_eq!(session.points, vec![pt(0, 0)]);
    assert_eq!(session.last_point, Some(pt(0, 0)));
    session.append_target(pt(3, 0), &config);
    assert_eq!(session.points, vec![pt(0, 0), pt(5, 0)]);
    session.append_target(pt(3, 4), &config);
    // From (5,0) toward (3,4): direction (-2,4), exact step lands on (3,4).
    assert_eq!(session.points, vec![pt(0, 0), pt(5, 0), pt(3, 4)]);
    assert_eq!(session.last_point, Some(pt(3, 4)));
}

// Session invariant: after any sequence of appends, last_point is set iff
// points is non-empty and equals the last committed point.
#[test]
fn session_invariant_after_appends() {
    let config = FollowConfig::new(3);
    let mut session = StrokeSession::new();
    assert_eq!(session.last_point, None);
    assert!(session.points.is_empty());
    assert!(!session.has_active_stroke());
    let targets = [pt(0, 0), pt(10, 0), pt(10, 10), pt(-5, -5), pt(-5, -5)];
    for t in targets {
        session.append_target(t, &config);
        assert_eq!(session.last_point, Some(*session.points.last().unwrap()));
        assert!(session.has_active_stroke());
    }
    assert_eq!(session.points.len(), targets.len());
}

// A stroke with points (0,0), (10,0), (10,10) finalizes to the box
// 0..10 x 0..10; normalized y-flipped points; placement center (5,5).
#[test]
fn finalize_scenario_box_and_document() {
    let config = FollowConfig::new(10);
    let mut session = StrokeSession::new();
    // Axis-aligned speed-10 targets commit exactly these points.
    session.append_target(pt(0, 0), &config);
    session.append_target(pt(10, 0), &config);
    session.append_target(pt(10, 10), &config);
    assert_eq!(session.points, vec![pt(0, 0), pt(10, 0), pt(10, 10)]);
    let fs = session.finalize_and_reset();
    assert_eq!((fs.min_x, fs.min_y, fs.max_x, fs.max_y), (0, 0, 10, 10));
    assert_eq!((fs.width, fs.height), (10, 10));
    assert_eq!(fs.normalized, vec![pt(0, 10), pt(10, 10), pt(10, 0)]);
    assert_eq!(fs.center, pt(5, 5));
    assert_eq!(fs.index, 0);
    assert_eq!(fs.filename.as_str(), "assets/svgs/drawing0.svg");
    assert_eq!(
        fs.document.as_str(),
        "<svg xmlns='http://www.w3.org/2000/svg' width='10' height='10'>\
         <path d='M 0 10 L 10 10 L 10 0' fill='none' stroke='black'/></svg>",
    );
}

// A single-point stroke finalizes to a zero-size box and a one-vertex path
// without error.
#[test]
fn finalize_single_point_stroke() {
    let config = FollowConfig::new(4);
    let mut session = StrokeSession::new();
    session.append_target(pt(2, 2), &config);
    let fs = session.finalize_and_reset();
    assert_eq!((fs.min_x, fs.min_y, fs.max_x, fs.max_y), (2, 2, 2, 2));
    assert_eq!((fs.width, fs.height), (0, 0));
    assert_eq!(fs.normalized, vec![pt(0, 0)]);
    assert_eq!(fs.center, pt(2, 2));
    assert_eq!(
        fs.document.as_str(),
        "<svg xmlns='http://www.w3.org/2000/svg' width='0' height='0'>\
         <path d='M 0 0' fill='none' stroke='black'/></svg>",
    );
}

// Bounding-box containment: every normalized coordinate lies within the
// canvas extent.
#[test]
fn finalize_containment() {
    let mut session = StrokeSession::new();
    session.points = vec![pt(-7, 3), pt(12, -9), pt(0, 0), pt(5, 40)];
    session.last_point = Some(pt(5, 40));
    let fs = session.finalize_and_reset();
    assert_eq!((fs.min_x, fs.min_y, fs.max_x, fs.max_y), (-7, -9, 12, 40));
    for p in &fs.normalized {
        assert!(0 <= p.x && p.x <= fs.width);
        assert!(0 <= p.y && p.y <= fs.height);
    }
}

// Reset completeness: immediately after finalize the session is empty and
// the last point unset.
#[test]
fn finalize_resets_session() {
    let config = FollowConfig::new(2);
    let mut session = StrokeSession::new();
    session.append_target(pt(1, 1), &config);
    let _ = session.finalize_and_reset();
    assert!(session.points.is_empty());
    assert_eq!(session.last_point, None);
    assert!(!session.has_active_stroke());
}

// Counter monotonicity: consecutive finalized strokes are named by indices
// increasing by exactly one from the initial counter.
#[test]
fn counter_monotonic_across_strokes() {
    let config = FollowConfig::new(2);
    let mut session = StrokeSession::new();
    let mut names: Vec<String> = Vec::new();
    for i in 0..3u64 {
        session.append_target(pt(i as i64, 0), &config);
        let fs = session.finalize_and_reset();
        assert_eq!(fs.index, i);
        names.push(fs.filename);
    }
    assert_eq!(
        names,
        vec![
            "assets/svgs/drawing0.svg".to_string(),
            "assets/svgs/drawing1.svg".to_string(),
            "assets/svgs/drawing2.svg".to_string(),
        ],
    );
    assert_eq!(session.stroke_counter, 3);
}

// Multi-digit decimal rendering in filenames and documents.
#[test]
fn filename_multi_digit() {
    let name = svgdraw::render_filename(105);
    assert_eq!(name.as_str(), "assets/svgs/drawing105.svg");
    let doc = svgdraw::render_document(1203, 90, &vec![pt(0, 1203)]);
    assert_eq!(
        doc.as_str(),
        "<svg xmlns='http://www.w3.org/2000/svg' width='1203' height='90'>\
         <path d='M 0 1203' fill='none' stroke='black'/></svg>",
    );
}

// The preview rebuilds one segment per consecutive pair, in order.
#[test]
fn preview_segments_pairs() {
    let points = vec![pt(0, 0), pt(5, 0), pt(3, 4)];
    let segs = svgdraw::preview_segments(&points);
    assert_eq!(
        segs,
        vec![
            Segment { a: pt(0, 0), b: pt(5, 0) },
            Segment { a: pt(5, 0), b: pt(3, 4) },
        ],
    );
    assert!(svgdraw::preview_segments(&vec![]).is_empty());
    assert!(svgdraw::preview_segments(&vec![pt(1, 2)]).is_empty());
}

// The resolver flips y, recenters on the viewport, and translates by the
// camera position; a missing pointer resolves from the device origin.
#[test]
fn resolver_flip_center_translate() {
    let r = svgdraw::resolve_pointer(Some(pt(100, 50)), 800, 600, pt(0, 0));
    assert_eq!(r, pt(100 - 400, (600 - 50) - 300));
    let shifted = svgdraw::resolve_pointer(Some(pt(100, 50)), 800, 600, pt(10, 20));
    assert_eq!(shifted, pt(-300 + 10, 250 + 20));
    let missing = svgdraw::resolve_pointer(None, 800, 600, pt(0, 0));
    assert_eq!(missing, pt(-400, 300));
}

// One frame per tick, as the host loop drives the session: held commits,
// release finalizes, idle does nothing.
#[test]
fn frame_drives_capture_and_finalize() {
    let config = FollowConfig::new(5);
    let mut session = StrokeSession::new();
    // Idle frame: nothing changes.
    assert!(session.frame(false, false, pt(0, 0), &config).is_none());
    assert!(session.points.is_empty());
    // Release with no active stroke: nothing happens.
    assert!(session.frame(false, true, pt(0, 0), &config).is_none());
    assert_eq!(session.stroke_counter, 0);
    // Held frames commit filtered points.
    assert!(session.frame(true, false, pt(0, 0), &config).is_none());
    assert!(session.frame(true, false, pt(3, 0), &config).is_none());
    assert_eq!(session.points, vec![pt(0, 0), pt(5, 0)]);
    // Release finalizes and resets.
    let fs = session.frame(false, true, pt(9, 9), &config).unwrap();
    assert_eq!(fs.index, 0);
    assert_eq!((fs.min_x, fs.min_y, fs.max_x, fs.max_y), (0, 0, 5, 0));
    assert!(session.points.is_empty());
    assert_eq!(session.stroke_counter, 1);
}
