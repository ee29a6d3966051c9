//! The crossing samplers: from drawn speeds and waypoints to a discretized,
//! placed crosswalk path.
//!
//! A crossing is two straight segments walked at the two drawn half-crossing
//! speeds: origin toward the first waypoint at the road's midline, then on
//! toward the second waypoint at the far edge.  The third waypoint is a
//! diagnostic output only.  Crossing samples never fail; every degenerate
//! drawn value is clamped, and each segment walk is capped at the same
//! sample budget as a vehicle profile half.

use vstd::prelude::*;
use crate::dir::PedFlowDir;
use crate::fixed::FP_SAT;
use crate::fixed::add_sat;
use crate::fixed::add_sat_spec;
use crate::fixed::clamp;
use crate::fixed::clamp_spec;
use crate::fixed::div_sat;
use crate::fixed::div_sat_spec;
use crate::fixed::in_range;
use crate::fixed::is_sqrt_fp;
use crate::fixed::mul_sat;
use crate::fixed::mul_sat_spec;
use crate::fixed::sat_spec;
use crate::fixed::sqrt_fp;
use crate::fixed::sub_sat;
use crate::fixed::sub_sat_spec;
use crate::path::Iso;
use crate::path::Rot;
use crate::path::iso_apply;
use crate::path::iso_apply_spec;
use crate::path::rot_apply_spec;
use crate::profile::STEP_FP;
use crate::profile::Vec2;
use crate::profile::vec2_in_range;
use crate::settings::PedFlow;
use crate::settings::Settings;
use crate::trig::cos_fp_spec;
use crate::trig::sin_fp_spec;

verus! {

/// Cap on the number of samples of one crossing segment.
pub const WALK_CAP: i64 = 10_000;

/// The stochastic parameters of one crossing sample, as drawn by the
/// caller.  For the inter-green variant the two half speeds carry their
/// corrective shifts already.
#[derive(Clone, Copy, PartialEq, Eq, Structural, Debug)]
pub struct PedDraws {
    pub v_init: i64,
    pub x_init: i64,
    pub diagonal: bool,
    pub v_1: i64,
    pub v_2: i64,
    pub x_1: i64,
    pub x_2: i64,
    pub x_3: i64,
}

/// Everything a crossing sample produces.
#[derive(Clone, PartialEq, Debug)]
pub struct PedOutput {
    pub v_1: i64,
    pub v_2: i64,
    pub x_1: i64,
    pub x_2: i64,
    pub x_3: i64,
    pub max_step: usize,
    pub trajectory_series: Vec<Vec2>,
}

/// A position after `k` equal saturating steps.
pub open spec fn walk_pos(start: int, step: int, k: int) -> int
    decreases k,
{
    if k <= 0 {
        start
    } else {
        add_sat_spec(walk_pos(start, step, k - 1), step)
    }
}

/// The number of samples a segment walk takes: one step while the
/// perpendicular coordinate has not passed `target`, capped.
pub open spec fn walk_len(y: int, sy: int, target: int, cap: int) -> int
    decreases cap,
{
    if cap <= 0 || !(y <= target) {
        0
    } else {
        1 + walk_len(add_sat_spec(y, sy), sy, target, cap - 1)
    }
}

/// A walk never takes a negative number of samples.
proof fn lemma_walk_len_nonneg(y: int, sy: int, target: int, cap: int)
    ensures
        walk_len(y, sy, target, cap) >= 0,
    decreases cap,
{
    if !(cap <= 0 || !(y <= target)) {
        lemma_walk_len_nonneg(add_sat_spec(y, sy), sy, target, cap - 1);
    }
}

/// Walking one more step from the start is walking from the first step's
/// position.
proof fn lemma_walk_pos_shift(start: int, step: int, k: int)
    requires
        0 <= k,
    ensures
        walk_pos(start, step, k + 1) == walk_pos(add_sat_spec(start, step), step, k),
    decreases k,
{
    if k == 0 {
        assert(walk_pos(start, step, 0) == start);
        assert(walk_pos(start, step, 1) == add_sat_spec(start, step));
        assert(walk_pos(add_sat_spec(start, step), step, 0) == add_sat_spec(start, step));
    } else {
        lemma_walk_pos_shift(start, step, k - 1);
        assert(walk_pos(start, step, k + 1) == add_sat_spec(walk_pos(start, step, k), step));
        assert(walk_pos(add_sat_spec(start, step), step, k) == add_sat_spec(
            walk_pos(add_sat_spec(start, step), step, k - 1),
            step,
        ));
    }
}

/// Crossing coverage: a segment walk that gains at least one micro-unit of
/// perpendicular advance per step, with a target inside the representable
/// range and a sample budget that covers the distance, provably ends past
/// its target.  The one family of inputs outside this law is a degenerate
/// drawn speed whose fixed-point per-step advance truncates to zero.
pub proof fn lemma_walk_covers(y0: int, sy: int, target: int, cap: int)
    requires
        1 <= sy,
        in_range(y0),
        target < FP_SAT as int,
        target < y0 + cap * sy,
    ensures
        walk_pos(y0, sy, walk_len(y0, sy, target, cap)) > target,
    decreases cap,
{
    if y0 <= target {
        assert(cap > 0) by (nonlinear_arith)
            requires
                y0 <= target,
                target < y0 + cap * sy,
                1 <= sy;
        let y1 = add_sat_spec(y0, sy);
        let n1 = walk_len(y1, sy, target, cap - 1);
        lemma_walk_len_nonneg(y1, sy, target, cap - 1);
        assert(walk_len(y0, sy, target, cap) == 1 + n1);
        if y1 == y0 + sy {
            assert(target < y1 + (cap - 1) * sy) by (nonlinear_arith)
                requires
                    y1 == y0 + sy,
                    target < y0 + cap * sy;
            lemma_walk_covers(y1, sy, target, cap - 1);
        } else {
            // the step saturated, which already passes every admissible target
            assert(y1 == FP_SAT as int);
            assert(n1 == 0);
        }
        lemma_walk_pos_shift(y0, sy, n1);
    }
}

/// Appends one straight crossing segment to `out`: starting after `(x, y)`,
/// each sample advances by `(sx, sy)` and is placed by the frame transform;
/// the walk stops when the perpendicular coordinate passes `target` (or at
/// the cap).  Returns the final local coordinates.
pub fn walk_segment(
    out: &mut Vec<Vec2>,
    iso: &Iso,
    x: i64,
    y: i64,
    sx: i64,
    sy: i64,
    target: i64,
) -> (end: (i64, i64))
    requires
        crate::path::iso_in_range(*iso),
        in_range(x as int),
        in_range(y as int),
        in_range(sx as int),
        in_range(sy as int),
        in_range(target as int),
    ensures
        ({
            let n = walk_len(y as int, sy as int, target as int, WALK_CAP as int);
            &&& final(out)@.len() == old(out)@.len() + n
            &&& forall|k: int| 0 <= k < old(out)@.len() ==> final(out)@[k] == old(out)@[k]
            &&& forall|k: int|
                0 <= k < n ==> #[trigger] final(out)@[old(out)@.len() + k] == iso_apply_spec(
                    *iso,
                    Vec2 {
                        x: walk_pos(x as int, sx as int, k + 1) as i64,
                        y: walk_pos(y as int, sy as int, k + 1) as i64,
                    },
                )
            &&& end.0 as int == walk_pos(x as int, sx as int, n)
            &&& end.1 as int == walk_pos(y as int, sy as int, n)
            &&& in_range(end.0 as int)
            &&& in_range(end.1 as int)
        }),
{
    let base = out.len();
    let mut cx = x;
    let mut cy = y;
    let mut k: usize = 0;
    while cy <= target && k < WALK_CAP as usize
        invariant
            crate::path::iso_in_range(*iso),
            in_range(x as int),
            in_range(y as int),
            in_range(sx as int),
            in_range(sy as int),
            in_range(target as int),
            in_range(cx as int),
            in_range(cy as int),
            k <= WALK_CAP as int,
            cx as int == walk_pos(x as int, sx as int, k as int),
            cy as int == walk_pos(y as int, sy as int, k as int),
            walk_len(y as int, sy as int, target as int, WALK_CAP as int) == k + walk_len(
                cy as int,
                sy as int,
                target as int,
                WALK_CAP as int - k,
            ),
            out@.len() == base + k,
            forall|j: int| 0 <= j < base ==> out@[j] == old(out)@[j],
            forall|j: int|
                0 <= j < k ==> #[trigger] out@[base + j] == iso_apply_spec(
                    *iso,
                    Vec2 {
                        x: walk_pos(x as int, sx as int, j + 1) as i64,
                        y: walk_pos(y as int, sy as int, j + 1) as i64,
                    },
                ),
        decreases WALK_CAP as int - k,
    {
        cx = add_sat(cx, sx);
        cy = add_sat(cy, sy);
        let p = iso_apply(iso, Vec2 { x: cx, y: cy });
        out.push(p);
        k = k + 1;
    }
    (cx, cy)
}

/// The geometry scalars a crossing reads from the configuration: the width
/// of the road it spans, in fixed point.
pub open spec fn ped_width_of(s: Settings, d: PedFlowDir) -> int {
    if crate::dir::crosses_across_axis_spec(d) {
        s.width_across as int
    } else {
        s.width_along as int
    }
}

/// The crosswalk band width a crossing reads from the configuration.
pub open spec fn ped_cw_width_of(s: Settings, d: PedFlowDir) -> int {
    if crate::dir::crosses_across_axis_spec(d) {
        s.cw_width_across as int
    } else {
        s.cw_width_along as int
    }
}

/// The crosswalk setback a crossing reads from the configuration.
pub open spec fn ped_cw_setback_of(s: Settings, d: PedFlowDir) -> int {
    if crate::dir::crosses_across_axis_spec(d) {
        s.cw_setback_across as int
    } else {
        s.cw_setback_along as int
    }
}

/// The frame transform of a crossing movement: anchored at the relevant
/// crosswalk edge, rotated into the crossed axis.
#[verifier::opaque]
pub open spec fn ped_iso_spec(s: Settings, d: PedFlowDir, c: int, sn: int) -> Iso {
    let rot = Rot { c: c as i64, s: sn as i64 };
    let half_across = mul_sat_spec(s.width_across as int, 500_000);
    let half_along = mul_sat_spec(s.width_along as int, 500_000);
    match d {
        PedFlowDir::NxNy2PxNy => {
            let p = Vec2 { x: (-(s.cw_setback_across as int)) as i64, y: half_across as i64 };
            Iso { rot: Rot { c: (-c) as i64, s: (-sn) as i64 }, t: rot_apply_spec(rot, p) }
        },
        PedFlowDir::PxNy2PxPy => {
            let p = Vec2 { x: s.cw_setback_along, y: (-half_along) as i64 };
            Iso { rot: Rot { c: crate::FP_ONE, s: 0 }, t: p }
        },
        PedFlowDir::PxPy2NxPy => {
            let p = Vec2 { x: s.cw_setback_across, y: (-half_across) as i64 };
            Iso { rot: Rot { c: c as i64, s: sn as i64 }, t: rot_apply_spec(rot, p) }
        },
        PedFlowDir::NxPy2NxNy => {
            let p = Vec2 { x: (-(s.cw_setback_along as int)) as i64, y: half_along as i64 };
            Iso { rot: Rot { c: (-(crate::FP_ONE as int)) as i64, s: 0 }, t: p }
        },
        PedFlowDir::PxNy2NxNy => {
            let xm = -add_sat_spec(s.cw_setback_across as int, s.cw_width_across as int);
            let p = Vec2 { x: xm as i64, y: (-half_across) as i64 };
            Iso { rot: Rot { c: c as i64, s: sn as i64 }, t: rot_apply_spec(rot, p) }
        },
        PedFlowDir::PxPy2PxNy => {
            let xm = add_sat_spec(s.cw_setback_along as int, s.cw_width_along as int);
            let p = Vec2 { x: xm as i64, y: half_along as i64 };
            Iso { rot: Rot { c: (-(crate::FP_ONE as int)) as i64, s: 0 }, t: p }
        },
        PedFlowDir::NxPy2PxPy => {
            let xm = add_sat_spec(s.cw_setback_across as int, s.cw_width_across as int);
            let p = Vec2 { x: xm as i64, y: half_across as i64 };
            Iso { rot: Rot { c: (-c) as i64, s: (-sn) as i64 }, t: rot_apply_spec(rot, p) }
        },
        PedFlowDir::NxNy2NxPy => {
            let xm = -add_sat_spec(s.cw_setback_along as int, s.cw_width_along as int);
            let p = Vec2 { x: xm as i64, y: (-half_along) as i64 };
            Iso { rot: Rot { c: crate::FP_ONE, s: 0 }, t: p }
        },
    }
}

/// Builds the frame transform of a crossing movement.
pub fn ped_iso(s: &Settings, d: PedFlowDir, c: i64, sn: i64) -> (r: Iso)
    requires
        s.geom_wf(),
        in_range(c as int),
        in_range(sn as int),
    ensures
        r == ped_iso_spec(*s, d, c as int, sn as int),
        crate::path::iso_in_range(r),
{
    proof {
        reveal(crate::crossing::ped_iso_spec);
    }
    let rot = Rot { c, s: sn };
    let half_across = mul_sat(s.width_across, 500_000);
    let half_along = mul_sat(s.width_along, 500_000);
    match d {
        PedFlowDir::NxNy2PxNy => {
            let p = Vec2 { x: -s.cw_setback_across, y: half_across };
            Iso { rot: Rot { c: -c, s: -sn }, t: rot_point_local(rot, p) }
        },
        PedFlowDir::PxNy2PxPy => {
            let p = Vec2 { x: s.cw_setback_along, y: -half_along };
            Iso { rot: Rot { c: crate::FP_ONE, s: 0 }, t: p }
        },
        PedFlowDir::PxPy2NxPy => {
            let p = Vec2 { x: s.cw_setback_across, y: -half_across };
            Iso { rot: Rot { c, s: sn }, t: rot_point_local(rot, p) }
        },
        PedFlowDir::NxPy2NxNy => {
            let p = Vec2 { x: -s.cw_setback_along, y: half_along };
            Iso { rot: Rot { c: -crate::FP_ONE, s: 0 }, t: p }
        },
        PedFlowDir::PxNy2NxNy => {
            let xm = -add_sat(s.cw_setback_across, s.cw_width_across);
            let p = Vec2 { x: xm, y: -half_across };
            Iso { rot: Rot { c, s: sn }, t: rot_point_local(rot, p) }
        },
        PedFlowDir::PxPy2PxNy => {
            let xm = add_sat(s.cw_setback_along, s.cw_width_along);
            let p = Vec2 { x: xm, y: half_along };
            Iso { rot: Rot { c: -crate::FP_ONE, s: 0 }, t: p }
        },
        PedFlowDir::NxPy2PxPy => {
            let xm = add_sat(s.cw_setback_across, s.cw_width_across);
            let p = Vec2 { x: xm, y: half_across };
            Iso { rot: Rot { c: -c, s: -sn }, t: rot_point_local(rot, p) }
        },
        PedFlowDir::NxNy2NxPy => {
            let xm = -add_sat(s.cw_setback_along, s.cw_width_along);
            let p = Vec2 { x: xm, y: -half_along };
            Iso { rot: Rot { c: crate::FP_ONE, s: 0 }, t: p }
        },
    }
}

/// Applies a rotation to a point.
fn rot_point_local(r: Rot, p: Vec2) -> (q: Vec2)
    requires
        in_range(r.c as int),
        in_range(r.s as int),
        vec2_in_range(p),
    ensures
        q == rot_apply_spec(r, p),
        vec2_in_range(q),
{
    Vec2 {
        x: sub_sat(mul_sat(r.c, p.x), mul_sat(r.s, p.y)),
        y: add_sat(mul_sat(r.s, p.x), mul_sat(r.c, p.y)),
    }
}

/// Whether the initial lateral position is on the center side of the
/// crosswalk band (a covariate of the waypoint regressions).
pub fn ped_center_side(x_init: i64, cw_width: i64) -> (r: bool)
    requires
        in_range(x_init as int),
        in_range(cw_width as int),
    ensures
        r == (x_init < mul_sat_spec(cw_width as int, 500_000)),
{
    x_init < mul_sat(cw_width, 500_000)
}

/// The drawn values of a crossing, clamped into the saturating range.
pub open spec fn clamp_ped_draws_spec(d: PedDraws) -> PedDraws {
    PedDraws {
        v_init: sat_spec(d.v_init as int) as i64,
        x_init: sat_spec(d.x_init as int) as i64,
        diagonal: d.diagonal,
        v_1: sat_spec(d.v_1 as int) as i64,
        v_2: sat_spec(d.v_2 as int) as i64,
        x_1: sat_spec(d.x_1 as int) as i64,
        x_2: sat_spec(d.x_2 as int) as i64,
        x_3: sat_spec(d.x_3 as int) as i64,
    }
}

/// Every field of the clamped draws is in range.
pub open spec fn ped_draws_in_range(d: PedDraws) -> bool {
    &&& in_range(d.v_init as int)
    &&& in_range(d.x_init as int)
    &&& in_range(d.v_1 as int)
    &&& in_range(d.v_2 as int)
    &&& in_range(d.x_1 as int)
    &&& in_range(d.x_2 as int)
    &&& in_range(d.x_3 as int)
}

/// What a crossing sample looks like, for the two segment-norm witnesses:
/// the waypoints clamped into the crosswalk band, the unit-direction step
/// increments pinned through the square-root characterizations, and the
/// path walked segment by segment under the frame transform.
#[verifier::opaque]
pub open spec fn ped_output_ok(
    d: PedDraws,
    width: int,
    cw_width: int,
    iso: Iso,
    out: PedOutput,
    n1: int,
    n2: int,
) -> bool {
    let x1c = clamp_spec(d.x_1 as int, 0, cw_width);
    let x2c = clamp_spec(d.x_2 as int, 0, cw_width);
    let x3c = clamp_spec(d.x_3 as int, 0, cw_width);
    let half = mul_sat_spec(width, 500_000);
    let dx1 = sub_sat_spec(x1c, d.x_init as int);
    let rad1 = add_sat_spec(mul_sat_spec(dx1, dx1), mul_sat_spec(half, half));
    let sx1 = mul_sat_spec(mul_sat_spec(div_sat_spec(dx1, n1), d.v_1 as int), STEP_FP as int);
    let sy1 = mul_sat_spec(mul_sat_spec(div_sat_spec(half, n1), d.v_1 as int), STEP_FP as int);
    let len1 = walk_len(0, sy1, half, WALK_CAP as int);
    let x_end = walk_pos(0, sx1, len1);
    let y_end = walk_pos(0, sy1, len1);
    let dx2 = sub_sat_spec(x2c, x1c);
    let dy2 = sub_sat_spec(width, mul_sat_spec(width, 500_000));
    let rad2 = add_sat_spec(mul_sat_spec(dx2, dx2), mul_sat_spec(dy2, dy2));
    let sx2 = mul_sat_spec(mul_sat_spec(div_sat_spec(dx2, n2), d.v_2 as int), STEP_FP as int);
    let sy2 = mul_sat_spec(mul_sat_spec(div_sat_spec(dy2, n2), d.v_2 as int), STEP_FP as int);
    let len2 = walk_len(y_end, sy2, width, WALK_CAP as int);
    &&& is_sqrt_fp(rad1, n1)
    &&& is_sqrt_fp(rad2, n2)
    &&& out.v_1 == d.v_1
    &&& out.v_2 == d.v_2
    &&& out.x_1 as int == x1c
    &&& out.x_2 as int == x2c
    &&& out.x_3 as int == x3c
    &&& out.max_step as int == len1 + len2
    &&& out.trajectory_series@.len() == len1 + len2
    &&& forall|k: int|
        0 <= k < len1 ==> #[trigger] out.trajectory_series@[k] == iso_apply_spec(
            iso,
            Vec2 { x: walk_pos(0, sx1, k + 1) as i64, y: walk_pos(0, sy1, k + 1) as i64 },
        )
    &&& forall|k: int|
        0 <= k < len2 ==> #[trigger] out.trajectory_series@[len1 + k] == iso_apply_spec(
            iso,
            Vec2 {
                x: walk_pos(x_end, sx2, k + 1) as i64,
                y: walk_pos(y_end, sy2, k + 1) as i64,
            },
        )
    &&& (1 <= sy1 && half < FP_SAT as int && half < (WALK_CAP as int) * sy1 ==> y_end > half)
    &&& (1 <= sy2 && width < FP_SAT as int && width < y_end + (WALK_CAP as int) * sy2
        ==> walk_pos(y_end, sy2, len2) > width)
}

/// A crossing sample satisfies [`ped_output_ok`] for some pair of segment
/// norms.
pub open spec fn ped_sample_ok(d: PedDraws, width: int, cw_width: int, iso: Iso, out: PedOutput) -> bool {
    exists|n1: int, n2: int| ped_output_ok(d, width, cw_width, iso, out, n1, n2)
}

/// Builds one crossing from clamped draws, the resolved widths and the
/// frame transform.
#[verifier::rlimit(60)]
fn build_crossing(d: PedDraws, width: i64, cw_width: i64, iso: Iso) -> (out: PedOutput)
    requires
        ped_draws_in_range(d),
        0 <= cw_width,
        in_range(cw_width as int),
        in_range(width as int),
        crate::path::iso_in_range(iso),
    ensures
        ped_sample_ok(d, width as int, cw_width as int, iso, out),
{
    proof {
        reveal(crate::crossing::ped_output_ok);
    }
    let x1c = clamp(d.x_1, 0, cw_width);
    let x2c = clamp(d.x_2, 0, cw_width);
    let x3c = clamp(d.x_3, 0, cw_width);
    let half = mul_sat(width, 500_000);
    let dx1 = sub_sat(x1c, d.x_init);
    let rad1 = add_sat(mul_sat(dx1, dx1), mul_sat(half, half));
    proof {
        assert(mul_sat_spec(dx1 as int, dx1 as int) >= 0) by (nonlinear_arith);
        assert(mul_sat_spec(half as int, half as int) >= 0) by (nonlinear_arith);
    }
    let n1 = sqrt_fp(rad1);
    let sx1 = mul_sat(mul_sat(div_sat(dx1, n1), d.v_1), STEP_FP);
    let sy1 = mul_sat(mul_sat(div_sat(half, n1), d.v_1), STEP_FP);
    let mut traj: Vec<Vec2> = Vec::new();
    let (x_end, y_end) = walk_segment(&mut traj, &iso, 0, 0, sx1, sy1, half);
    let ghost len1 = traj@.len() as int;
    let dx2 = sub_sat(x2c, x1c);
    let dy2 = sub_sat(width, mul_sat(width, 500_000));
    let rad2 = add_sat(mul_sat(dx2, dx2), mul_sat(dy2, dy2));
    proof {
        assert(mul_sat_spec(dx2 as int, dx2 as int) >= 0) by (nonlinear_arith);
        assert(mul_sat_spec(dy2 as int, dy2 as int) >= 0) by (nonlinear_arith);
    }
    let n2 = sqrt_fp(rad2);
    let sx2 = mul_sat(mul_sat(div_sat(dx2, n2), d.v_2), STEP_FP);
    let sy2 = mul_sat(mul_sat(div_sat(dy2, n2), d.v_2), STEP_FP);
    let _ = walk_segment(&mut traj, &iso, x_end, y_end, sx2, sy2, width);
    let max_step = traj.len();
    let out = PedOutput {
        v_1: d.v_1,
        v_2: d.v_2,
        x_1: x1c,
        x_2: x2c,
        x_3: x3c,
        max_step,
        trajectory_series: traj,
    };
    proof {
        reveal(crate::crossing::ped_output_ok);
        let gx1c = clamp_spec(d.x_1 as int, 0, cw_width as int);
        let gx2c = clamp_spec(d.x_2 as int, 0, cw_width as int);
        let ghalf = mul_sat_spec(width as int, 500_000);
        let gdx1 = sub_sat_spec(gx1c, d.x_init as int);
        let grad1 = add_sat_spec(mul_sat_spec(gdx1, gdx1), mul_sat_spec(ghalf, ghalf));
        let gsx1 = mul_sat_spec(mul_sat_spec(div_sat_spec(gdx1, n1 as int), d.v_1 as int), STEP_FP as int);
        let gsy1 = mul_sat_spec(mul_sat_spec(div_sat_spec(ghalf, n1 as int), d.v_1 as int), STEP_FP as int);
        let glen1 = walk_len(0, gsy1, ghalf, WALK_CAP as int);
        assert(gx1c == x1c as int);
        assert(ghalf == half as int);
        assert(grad1 == rad1 as int);
        assert(is_sqrt_fp(grad1, n1 as int));
        assert(gsx1 == sx1 as int);
        assert(gsy1 == sy1 as int);
        assert(glen1 == len1);
        let gx_end = walk_pos(0, gsx1, glen1);
        let gy_end = walk_pos(0, gsy1, glen1);
        assert(gx_end == x_end as int);
        assert(gy_end == y_end as int);
        let gdx2 = sub_sat_spec(gx2c, gx1c);
        let gdy2 = sub_sat_spec(width as int, mul_sat_spec(width as int, 500_000));
        let grad2 = add_sat_spec(mul_sat_spec(gdx2, gdx2), mul_sat_spec(gdy2, gdy2));
        assert(is_sqrt_fp(grad2, n2 as int));
        let gsx2 = mul_sat_spec(mul_sat_spec(div_sat_spec(gdx2, n2 as int), d.v_2 as int), STEP_FP as int);
        let gsy2 = mul_sat_spec(mul_sat_spec(div_sat_spec(gdy2, n2 as int), d.v_2 as int), STEP_FP as int);
        let glen2 = walk_len(gy_end, gsy2, width as int, WALK_CAP as int);
        assert(out.trajectory_series@.len() == glen1 + glen2);
        assert(out.max_step as int == glen1 + glen2);
        assert forall|k: int|
            0 <= k < glen1 implies #[trigger] out.trajectory_series@[k] == iso_apply_spec(
                iso,
                Vec2 { x: walk_pos(0, gsx1, k + 1) as i64, y: walk_pos(0, gsy1, k + 1) as i64 },
            ) by {
            assert(out.trajectory_series@[0 + k] == iso_apply_spec(
                iso,
                Vec2 {
                    x: walk_pos(0, gsx1, k + 1) as i64,
                    y: walk_pos(0, gsy1, k + 1) as i64,
                },
            ));
        }
        assert(forall|k: int|
            0 <= k < glen2 ==> #[trigger] out.trajectory_series@[glen1 + k] == iso_apply_spec(
                iso,
                Vec2 {
                    x: walk_pos(gx_end, gsx2, k + 1) as i64,
                    y: walk_pos(gy_end, gsy2, k + 1) as i64,
                },
            ));
        if 1 <= gsy1 && ghalf < FP_SAT as int && ghalf < (WALK_CAP as int) * gsy1 {
            lemma_walk_covers(0, gsy1, ghalf, WALK_CAP as int);
        }
        if 1 <= gsy2 && (width as int) < FP_SAT as int && (width as int) < gy_end + (
        WALK_CAP as int) * gsy2 {
            lemma_walk_covers(gy_end, gsy2, width as int, WALK_CAP as int);
        }
        assert(ped_output_ok(d, width as int, cw_width as int, iso, out, n1 as int, n2 as int));
    }
    out
}

/// The movement case of a pedestrian flow (meaningful when the flow is
/// well-formed).
pub open spec fn ped_case_of(f: PedFlow) -> PedFlowDir {
    crate::dir::ped_case_spec(f.src, f.dst).unwrap()
}

/// Samples one crossing pedestrian from the drawn parameters.  Crossing
/// samples always succeed; the result is the placed two-segment path
/// described by [`ped_sample_ok`].
pub fn compute_ped(s: &Settings, f: &PedFlow, draws: &PedDraws) -> (r: Option<PedOutput>)
    requires
        s.geom_wf(),
        Settings::ped_flow_wf(*f),
    ensures
        r.is_some(),
        ped_sample_ok(
            clamp_ped_draws_spec(*draws),
            ped_width_of(*s, ped_case_of(*f)),
            ped_cw_width_of(*s, ped_case_of(*f)),
            ped_iso_spec(
                *s,
                ped_case_of(*f),
                crate::sampler::settings_rot_c(*s),
                crate::sampler::settings_rot_s(*s),
            ),
            r.unwrap(),
        ),
{
    let d = clamp_ped_draws(draws);
    let case = match crate::dir::ped_case(f.src, f.dst) {
        Some(c) => c,
        None => {
            proof {
                assert(false);
            }
            return None;
        },
    };
    let across = crate::dir::crosses_across_axis(case);
    let width = if across {
        s.width_across
    } else {
        s.width_along
    };
    let cw_width = if across {
        s.cw_width_across
    } else {
        s.cw_width_along
    };
    let rc = crate::trig::cos_fp(crate::sampler::deg2rad(s.angle));
    let rs_ = crate::trig::sin_fp(crate::sampler::deg2rad(s.angle));
    let iso = ped_iso(s, case, rc, rs_);
    Some(build_crossing(d, width, cw_width, iso))
}

/// Samples one inter-green crossing pedestrian.  The caller has already
/// folded the corrective shifts of the two half speeds into the draws (they
/// come from [`crate::regress::ig_v1_params`] and
/// [`crate::regress::ig_v2_params`]); the path construction is the same
/// two-segment walk as an ordinary crossing.
pub fn compute_ig_ped(s: &Settings, f: &PedFlow, draws: &PedDraws) -> (r: Option<PedOutput>)
    requires
        s.geom_wf(),
        Settings::ped_flow_wf(*f),
    ensures
        r.is_some(),
        ped_sample_ok(
            clamp_ped_draws_spec(*draws),
            ped_width_of(*s, ped_case_of(*f)),
            ped_cw_width_of(*s, ped_case_of(*f)),
            ped_iso_spec(
                *s,
                ped_case_of(*f),
                crate::sampler::settings_rot_c(*s),
                crate::sampler::settings_rot_s(*s),
            ),
            r.unwrap(),
        ),
{
    compute_ped(s, f, draws)
}

/// Executable clamp of a crossing draw bundle.
fn clamp_ped_draws(d: &PedDraws) -> (r: PedDraws)
    ensures
        r == clamp_ped_draws_spec(*d),
        ped_draws_in_range(r),
{
    PedDraws {
        v_init: clamp(d.v_init, -FP_SAT, FP_SAT),
        x_init: clamp(d.x_init, -FP_SAT, FP_SAT),
        diagonal: d.diagonal,
        v_1: clamp(d.v_1, -FP_SAT, FP_SAT),
        v_2: clamp(d.v_2, -FP_SAT, FP_SAT),
        x_1: clamp(d.x_1, -FP_SAT, FP_SAT),
        x_2: clamp(d.x_2, -FP_SAT, FP_SAT),
        x_3: clamp(d.x_3, -FP_SAT, FP_SAT),
    }
}

} // verus!
