//! The motion-follow filter: a constant-step pursuit rule.
//!
//! Every committed step advances exactly one step length toward the live
//! pointer target, regardless of how far away the target is: fast pointer
//! motion makes the committed path chase the cursor in fixed-length straight
//! segments, and slow motion overshoots targets nearer than one step. This
//! behaviour is the tool's characteristic feel and is preserved exactly; in
//! the fixed-point model each step component is the floor of the exact real
//! component.

use vstd::prelude::*;
use crate::geom::{Point, COORD_LIMIT, in_bounds, session_bounds, abs_int, dist2};

verus! {

/// Immutable-during-session configuration of the follow filter:
/// `speed` is the committed step length, in drawing-space units.
pub struct FollowConfig {
    pub speed: i64,
}

/// A usable step length: positive, and small enough that all the filter's
/// intermediate arithmetic stays in range.
pub open spec fn speed_ok(speed: int) -> bool {
    0 < speed <= COORD_LIMIT
}

impl FollowConfig {
    pub open spec fn wf(self) -> bool {
        speed_ok(self.speed as int)
    }

    pub fn new(speed: i64) -> (c: FollowConfig)
        requires
            speed_ok(speed as int),
        ensures
            c.wf(),
            c.speed == speed,
    {
        FollowConfig { speed }
    }
}

/// One committed component of a pursuit step: `c` has the sign of `d` and its
/// magnitude is the floor of the exact component `|d| * s / sqrt(d2)`, which
/// these two products pin down without naming the square root.
pub open spec fn step_component(d: int, d2: int, s: int, c: int) -> bool {
    &&& c * c * d2 <= d * d * s * s
    &&& (abs_int(c) + 1) * (abs_int(c) + 1) * d2 > d * d * s * s
    &&& d >= 0 ==> c >= 0
    &&& d <= 0 ==> c <= 0
}

/// Exact characterization of the follow filter: with no previous point the
/// target is committed exactly; with a stationary pointer the previous point
/// is re-committed; otherwise each component of the committed step is the
/// rounded-down exact pursuit component toward the target.
pub open spec fn follow_rel(last: Option<Point>, target: Point, s: int, r: Point) -> bool {
    match last {
        None => r == target,
        Some(l) => {
            let dx = target.x - l.x;
            let dy = target.y - l.y;
            if dx == 0 && dy == 0 {
                r == l
            } else {
                let d2 = dx * dx + dy * dy;
                &&& step_component(dx, d2, s, r.x - l.x)
                &&& step_component(dy, d2, s, r.y - l.y)
            }
        },
    }
}

/// Upper end of the bisection range for the integer square root;
/// its square exceeds every value the filter takes a root of.
const SQRT_RANGE: u128 = 4_398_046_511_104;

/// Integer square root by bisection: the floor of the square root of `q`.
fn isqrt(q: u128) -> (r: u128)
    requires
        q < SQRT_RANGE * SQRT_RANGE,
    ensures
        r * r <= q < (r + 1) * (r + 1),
{
    let mut lo: u128 = 0;
    let mut hi: u128 = SQRT_RANGE;
    while lo + 1 < hi
        invariant
            lo < hi <= SQRT_RANGE,
            lo * lo <= q,
            hi * hi > q,
        decreases hi - lo,
    {
        let mid = lo + (hi - lo) / 2;
        proof {
            assert(mid * mid <= SQRT_RANGE * SQRT_RANGE) by (nonlinear_arith)
                requires
                    0 <= mid <= SQRT_RANGE,
            ;
        }
        if mid * mid <= q {
            lo = mid;
        } else {
            hi = mid;
        }
    }
    lo
}

/// One axis of a pursuit step: the floor of `|d| * s / sqrt(d2)`, signed
/// like `d`.
fn step_toward(d: i64, d2: i64, s: i64) -> (c: i64)
    requires
        0 < d2 <= 18 * COORD_LIMIT * COORD_LIMIT,
        -3 * COORD_LIMIT <= d <= 3 * COORD_LIMIT,
        d * d <= d2,
        speed_ok(s as int),
    ensures
        step_component(d as int, d2 as int, s as int, c as int),
        -s <= c <= s,
{
    if d == 0 {
        proof {
            assert((abs_int(0) + 1) * (abs_int(0) + 1) * d2 > d * d * s * s) by (nonlinear_arith)
                requires
                    d == 0,
                    d2 > 0,
            ;
            assert(step_component(d as int, d2 as int, s as int, 0));
        }
        return 0;
    }
    let ad: i64 = if d < 0 { -d } else { d };
    proof {
        assert(0 <= ad * s <= 3 * COORD_LIMIT * COORD_LIMIT) by (nonlinear_arith)
            requires
                0 <= ad <= 3 * COORD_LIMIT,
                0 < s <= COORD_LIMIT,
        ;
    }
    let p: i64 = ad * s;
    proof {
        assert(0 <= p * p < SQRT_RANGE * SQRT_RANGE) by (nonlinear_arith)
            requires
                0 <= p <= 3 * COORD_LIMIT * COORD_LIMIT,
        ;
    }
    let n: u128 = (p as u128) * (p as u128);
    let q: u128 = n / (d2 as u128);
    proof {
        vstd::arithmetic::div_mod::lemma_fundamental_div_mod(n as int, d2 as int);
        vstd::arithmetic::div_mod::lemma_mod_bound(n as int, d2 as int);
        assert(q * d2 <= n < (q + 1) * d2) by (nonlinear_arith)
            requires
                n as int == d2 as int * (q as int) + (n as int) % (d2 as int),
                0 <= (n as int) % (d2 as int) < d2 as int,
        ;
        assert(q <= n) by (nonlinear_arith)
            requires
                q * d2 <= n,
                d2 >= 1,
                q >= 0,
        ;
    }
    let m: u128 = isqrt(q);
    proof {
        assert(m <= p) by (nonlinear_arith)
            requires
                m * m <= q,
                q <= n,
                n == p * p,
                m >= 0,
                p >= 0,
        ;
        assert(m * m * d2 <= d * d * s * s) by (nonlinear_arith)
            requires
                m * m <= q,
                q * d2 <= n,
                n == p * p,
                p == abs_int(d as int) * s,
                d2 > 0,
        ;
        assert((m + 1) * (m + 1) * d2 > d * d * s * s) by (nonlinear_arith)
            requires
                q < (m + 1) * (m + 1),
                n < (q + 1) * d2,
                n == p * p,
                p == abs_int(d as int) * s,
                d2 > 0,
        ;
        assert(m <= s) by (nonlinear_arith)
            requires
                m * m * d2 <= d * d * s * s,
                d * d <= d2,
                d2 > 0,
                s > 0,
                m >= 0,
        ;
    }
    let mi: i64 = m as i64;
    let c: i64 = if d < 0 {
        -mi
    } else {
        mi
    };
    proof {
        assert(mi == m);
        assert((-mi) * (-mi) == mi * mi) by (nonlinear_arith);
        assert(c * c == m * m);
        assert(abs_int(c as int) == m);
        assert(c * c * d2 == m * m * d2) by (nonlinear_arith)
            requires
                c * c == m * m,
        ;
        assert((abs_int(c as int) + 1) * (abs_int(c as int) + 1) * d2 == (m + 1) * (m + 1) * d2);
        assert(step_component(d as int, d2 as int, s as int, c as int));
    }
    c
}

/// The motion-follow filter: one constant-step pursuit move.
pub fn follow(last: Option<Point>, target: Point, speed: i64) -> (r: Point)
    requires
        in_bounds(target),
        speed_ok(speed as int),
        last matches Some(l) ==> session_bounds(l),
    ensures
        follow_rel(last, target, speed as int, r),
        session_bounds(r),
        last matches Some(l) ==> dist2(r, l) <= speed * speed,
{
    match last {
        None => target,
        Some(l) => {
            let dx = target.x - l.x;
            let dy = target.y - l.y;
            if dx == 0 && dy == 0 {
                l
            } else {
                proof {
                    assert(0 <= dx * dx <= 9 * COORD_LIMIT * COORD_LIMIT && (dx != 0 ==> dx * dx
                        >= 1)) by (nonlinear_arith)
                        requires
                            -3 * COORD_LIMIT <= dx <= 3 * COORD_LIMIT,
                    ;
                    assert(0 <= dy * dy <= 9 * COORD_LIMIT * COORD_LIMIT && (dy != 0 ==> dy * dy
                        >= 1)) by (nonlinear_arith)
                        requires
                            -3 * COORD_LIMIT <= dy <= 3 * COORD_LIMIT,
                    ;
                }
                let d2 = dx * dx + dy * dy;
                let sx = step_toward(dx, d2, speed);
                let sy = step_toward(dy, d2, speed);
                let r = Point { x: l.x + sx, y: l.y + sy };
                proof {
                    assert(sx * sx + sy * sy <= speed * speed) by (nonlinear_arith)
                        requires
                            sx * sx * d2 <= dx * dx * (speed as int) * (speed as int),
                            sy * sy * d2 <= dy * dy * (speed as int) * (speed as int),
                            d2 == dx * dx + dy * dy,
                            d2 > 0,
                    ;
                }
                r
            }
        },
    }
}

/// Follow-filter rest: pursuing the point the filter already sits on
/// commits that same point; a stationary pointer emits no movement.
pub proof fn lemma_follow_rest(l: Point, target: Point, s: int, r: Point)
    requires
        follow_rel(Some(l), target, s, r),
        target == l,
    ensures
        r == l,
{
}

/// First-point exactness: with no previous point the target is committed
/// exactly, whatever the step length.
pub proof fn lemma_follow_first(target: Point, s: int, r: Point)
    requires
        follow_rel(None, target, s, r),
    ensures
        r == target,
{
}

/// Step bound: a pursuit step toward a distinct target has Euclidean length
/// equal to the step length, up to the rounding down of each component: the
/// squared step length is at most `s * s`, and already growing each component
/// magnitude by one unit would push the squared length above `s * s`.
pub proof fn lemma_follow_step_bound(l: Point, target: Point, s: int, r: Point)
    requires
        follow_rel(Some(l), target, s, r),
        target != l,
        s > 0,
    ensures
        dist2(r, l) <= s * s,
        (abs_int(r.x - l.x) + 1) * (abs_int(r.x - l.x) + 1) + (abs_int(r.y - l.y) + 1) * (
        abs_int(r.y - l.y) + 1) > s * s,
{
    let dx = target.x - l.x;
    let dy = target.y - l.y;
    let d2 = dx * dx + dy * dy;
    let sx = r.x - l.x;
    let sy = r.y - l.y;
    assert(dx != 0 || dy != 0);
    assert(d2 > 0) by (nonlinear_arith)
        requires
            d2 == dx * dx + dy * dy,
            dx != 0 || dy != 0,
    ;
    assert(sx * sx + sy * sy <= s * s) by (nonlinear_arith)
        requires
            sx * sx * d2 <= dx * dx * s * s,
            sy * sy * d2 <= dy * dy * s * s,
            d2 == dx * dx + dy * dy,
            d2 > 0,
    ;
    assert((abs_int(sx) + 1) * (abs_int(sx) + 1) + (abs_int(sy) + 1) * (abs_int(sy) + 1) > s * s)
        by (nonlinear_arith)
        requires
            (abs_int(sx) + 1) * (abs_int(sx) + 1) * d2 > dx * dx * s * s,
            (abs_int(sy) + 1) * (abs_int(sy) + 1) * d2 > dy * dy * s * s,
            d2 == dx * dx + dy * dy,
            d2 > 0,
    ;
}

/// Axis-aligned exactness: where the exact pursuit step is representable,
/// no rounding happens. A step along one axis moves exactly the step length
/// along that axis and nothing along the other.
pub proof fn lemma_follow_axis_exact(l: Point, target: Point, s: int, r: Point)
    requires
        follow_rel(Some(l), target, s, r),
        target != l,
        target.y == l.y,
        s > 0,
    ensures
        abs_int(r.x - l.x) == s,
        r.y == l.y,
{
    let dx = target.x - l.x;
    let dy = target.y - l.y;
    let d2 = dx * dx + dy * dy;
    let sx = r.x - l.x;
    let sy = r.y - l.y;
    assert(dx != 0 && dy == 0);
    assert(d2 == dx * dx && d2 > 0) by (nonlinear_arith)
        requires
            d2 == dx * dx + dy * dy,
            dy == 0,
            dx != 0,
    ;
    assert(dy * dy * s * s == 0) by (nonlinear_arith)
        requires
            dy == 0,
    ;
    assert(abs_int(sx) == s) by (nonlinear_arith)
        requires
            sx * sx * d2 <= dx * dx * s * s,
            (abs_int(sx) + 1) * (abs_int(sx) + 1) * d2 > dx * dx * s * s,
            abs_int(sx) == sx || abs_int(sx) == -sx,
            abs_int(sx) >= 0,
            d2 == dx * dx,
            d2 > 0,
            s > 0,
    ;
    assert(sy == 0) by (nonlinear_arith)
        requires
            sy * sy * d2 <= 0,
            d2 > 0,
    ;
}

/// One step component is pinned down: two values satisfying the component
/// relation for the same axis are equal.
proof fn lemma_step_component_unique(d: int, d2: int, s: int, c1: int, c2: int)
    requires
        d2 > 0,
        step_component(d, d2, s, c1),
        step_component(d, d2, s, c2),
    ensures
        c1 == c2,
{
    let a1 = abs_int(c1);
    let a2 = abs_int(c2);
    assert(a1 * a1 == c1 * c1) by (nonlinear_arith)
        requires
            a1 == c1 || a1 == -c1,
    ;
    assert(a2 * a2 == c2 * c2) by (nonlinear_arith)
        requires
            a2 == c2 || a2 == -c2,
    ;
    assert(abs_int(c1) == abs_int(c2)) by (nonlinear_arith)
        requires
            c1 * c1 * d2 <= d * d * s * s,
            (abs_int(c1) + 1) * (abs_int(c1) + 1) * d2 > d * d * s * s,
            c2 * c2 * d2 <= d * d * s * s,
            (abs_int(c2) + 1) * (abs_int(c2) + 1) * d2 > d * d * s * s,
            abs_int(c1) * abs_int(c1) == c1 * c1,
            abs_int(c2) * abs_int(c2) == c2 * c2,
            abs_int(c1) >= 0,
            abs_int(c2) >= 0,
            d2 > 0,
    ;
    if d == 0 {
        assert(c1 == 0 && c2 == 0);
    } else if d > 0 {
        assert(c1 >= 0 && c2 >= 0);
    } else {
        assert(c1 <= 0 && c2 <= 0);
    }
}

/// The follow relation is a function: it pins the committed point down
/// completely.
pub proof fn lemma_follow_deterministic(
    last: Option<Point>,
    target: Point,
    s: int,
    r1: Point,
    r2: Point,
)
    requires
        follow_rel(last, target, s, r1),
        follow_rel(last, target, s, r2),
    ensures
        r1 == r2,
{
    if let Some(l) = last {
        let dx = target.x - l.x;
        let dy = target.y - l.y;
        if dx != 0 || dy != 0 {
            let d2 = dx * dx + dy * dy;
            assert(d2 > 0) by (nonlinear_arith)
                requires
                    d2 == dx * dx + dy * dy,
                    dx != 0 || dy != 0,
            ;
            lemma_step_component_unique(dx, d2, s, r1.x - l.x, r2.x - l.x);
            lemma_step_component_unique(dy, d2, s, r1.y - l.y, r2.y - l.y);
        }
    }
}

} // verus!
