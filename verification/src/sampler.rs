//! The turning-vehicle samplers: from drawn kinematic parameters to a
//! discretized, placed turn path.
//!
//! The caller draws the stochastic parameters (outside this crate, from the
//! distributions whose parameters [`crate::regress`] computes) and hands
//! them in as plain values; everything from there on is deterministic and
//! verified: the cubic velocity profile, the trapezoidal position integral,
//! the clothoid-arc curvature bands, the Euler trajectory, the origin
//! alignment, and the frame transform into intersection coordinates.  The
//! only failure is the geometric one: a negative remaining arc length
//! returns no agent.

use vstd::prelude::*;
use crate::clothoid::ClothoidGeom;
use crate::clothoid::build_curvature;
use crate::clothoid::clothoid_geom;
use crate::clothoid::clothoid_geom_spec;
use crate::clothoid::curvature_at_spec;
use crate::dir::VehFlowDir;
use crate::fixed::FP_SAT;
use crate::fixed::add_sat;
use crate::fixed::add_sat_spec;
use crate::fixed::cbrt_fp;
use crate::fixed::clamp;
use crate::fixed::div_sat;
use crate::fixed::div_sat_spec;
use crate::fixed::in_range;
use crate::fixed::is_cbrt_fp;
use crate::fixed::mul_sat;
use crate::fixed::mul_sat_spec;
use crate::fixed::sat_spec;
use crate::fixed::sub_sat;
use crate::fixed::sub_sat_spec;
use crate::path::Iso;
use crate::path::Rot;
use crate::path::intersection_point;
use crate::path::intersection_spec;
use crate::path::iso_apply;
use crate::path::iso_apply_spec;
use crate::path::origin_time;
use crate::path::origin_time_spec;
use crate::path::rot_apply_spec;
use crate::path::build_trajectory;
use crate::path::traj_x_after;
use crate::path::traj_y_after;
use crate::profile::Vec2;
use crate::profile::apex_pos_x;
use crate::profile::half_len;
use crate::profile::half_sample;
use crate::profile::integrate_positions;
use crate::profile::pos_t_at;
use crate::profile::pos_x_at;
use crate::profile::push_half_profile;
use crate::profile::vec2_in_range;
use crate::regress::lt_a1_spec;
use crate::regress::lt_a2_spec;
use crate::regress::lt_clothoid_params;
use crate::regress::rt_a1_spec;
use crate::regress::rt_a2_spec;
use crate::regress::rt_clothoid_params;
use crate::regress::dummy_fp;
use crate::settings::Settings;
use crate::settings::VehFlow;
use crate::settings::src_uses_along;
use crate::trig::cos_fp;
use crate::trig::cos_fp_spec;
use crate::trig::sin_fp;
use crate::trig::sin_fp_spec;

verus! {

/// Half of the plotted road length used to draw construction lines.
pub const ROAD_LENGTH_FP: i64 = 64_000_000;

/// Fixed-point radians per fixed-point degree.
pub const RAD_PER_DEG_FP: i64 = 17_453;

/// Degrees converted to radians with the crate's rounding.
pub open spec fn deg2rad_spec(d: int) -> int {
    mul_sat_spec(d, RAD_PER_DEG_FP as int)
}

/// Executable mirror of [`deg2rad_spec`].
pub fn deg2rad(d: i64) -> (r: i64)
    requires
        in_range(d as int),
    ensures
        r as int == deg2rad_spec(d as int),
        in_range(r as int),
{
    mul_sat(d, RAD_PER_DEG_FP)
}

/// The stochastic parameters of one turning-vehicle sample, as drawn by the
/// caller.
#[derive(Clone, Copy, PartialEq, Eq, Structural, Debug)]
pub struct VehDraws {
    pub v_in: i64,
    pub v_out: i64,
    pub padding: i64,
    pub large: bool,
    pub c_in: i64,
    pub c_out: i64,
    pub v_min: i64,
    pub x_min: i64,
    pub r_min: i64,
}

/// The draws with every value clamped into the saturating range.
pub open spec fn clamp_draws_spec(d: VehDraws) -> VehDraws {
    VehDraws {
        v_in: sat_spec(d.v_in as int) as i64,
        v_out: sat_spec(d.v_out as int) as i64,
        padding: sat_spec(d.padding as int) as i64,
        large: d.large,
        c_in: sat_spec(d.c_in as int) as i64,
        c_out: sat_spec(d.c_out as int) as i64,
        v_min: sat_spec(d.v_min as int) as i64,
        x_min: sat_spec(d.x_min as int) as i64,
        r_min: sat_spec(d.r_min as int) as i64,
    }
}

/// Every field of the clamped draws is in range.
pub open spec fn draws_in_range(d: VehDraws) -> bool {
    &&& in_range(d.v_in as int)
    &&& in_range(d.v_out as int)
    &&& in_range(d.padding as int)
    &&& in_range(d.c_in as int)
    &&& in_range(d.c_out as int)
    &&& in_range(d.v_min as int)
    &&& in_range(d.x_min as int)
    &&& in_range(d.r_min as int)
}

/// Executable clamp of a draw bundle.
fn clamp_draws(d: &VehDraws) -> (r: VehDraws)
    ensures
        r == clamp_draws_spec(*d),
        draws_in_range(r),
{
    VehDraws {
        v_in: clamp(d.v_in, -FP_SAT, FP_SAT),
        v_out: clamp(d.v_out, -FP_SAT, FP_SAT),
        padding: clamp(d.padding, -FP_SAT, FP_SAT),
        large: d.large,
        c_in: clamp(d.c_in, -FP_SAT, FP_SAT),
        c_out: clamp(d.c_out, -FP_SAT, FP_SAT),
        v_min: clamp(d.v_min, -FP_SAT, FP_SAT),
        x_min: clamp(d.x_min, -FP_SAT, FP_SAT),
        r_min: clamp(d.r_min, -FP_SAT, FP_SAT),
    }
}

/// Everything a successful turning-vehicle sample produces.
#[derive(Clone, PartialEq, Debug)]
pub struct VehOutput {
    pub c_in: i64,
    pub c_out: i64,
    pub v_min: i64,
    pub x_min: i64,
    pub t_min: i64,
    pub t_exit: i64,
    pub t_o: i64,
    pub x_o: i64,
    pub max_step: usize,
    pub velocity_series: Vec<Vec2>,
    pub position_series: Vec<Vec2>,
    pub curvature_series: Vec<Vec2>,
    pub trajectory_series: Vec<Vec2>,
}

/// The cube of the inflow half duration: `(2 / c_in) (v_in - v_min)`.
pub open spec fn inflow_radicand(d: VehDraws) -> int {
    mul_sat_spec(div_sat_spec(2_000_000, d.c_in as int), sub_sat_spec(d.v_in as int, d.v_min as int))
}

/// The cube of the outflow half duration: `(2 / -c_out) (v_min - v_out)`.
pub open spec fn outflow_radicand(d: VehDraws) -> int {
    mul_sat_spec(
        div_sat_spec(2_000_000, -(d.c_out as int)),
        sub_sat_spec(d.v_min as int, d.v_out as int),
    )
}

/// The turn angle of a movement case, in fixed-point degrees: the
/// intersection angle or its supplement, per the direction table.
pub open spec fn turn_angle_spec(case: VehFlowDir, angle: int) -> int {
    match case {
        VehFlowDir::Nx2Py(_, _) | VehFlowDir::Px2Ny(_, _) => angle,
        VehFlowDir::Py2Px(_, _) | VehFlowDir::Ny2Nx(_, _) => sub_sat_spec(
            crate::settings::DEG_180 as int,
            angle,
        ),
        VehFlowDir::Nx2Ny(_, _) | VehFlowDir::Px2Py(_, _) => sub_sat_spec(
            crate::settings::DEG_180 as int,
            angle,
        ),
        VehFlowDir::Ny2Px(_, _) | VehFlowDir::Py2Nx(_, _) => angle,
        _ => angle,
    }
}

/// Executable mirror of [`turn_angle_spec`].
pub fn turn_angle(case: VehFlowDir, angle: i64) -> (r: i64)
    requires
        in_range(angle as int),
    ensures
        r as int == turn_angle_spec(case, angle as int),
        in_range(r as int),
{
    match case {
        VehFlowDir::Nx2Py(_, _) | VehFlowDir::Px2Ny(_, _) => angle,
        VehFlowDir::Py2Px(_, _) | VehFlowDir::Ny2Nx(_, _) => sub_sat(
            crate::settings::DEG_180,
            angle,
        ),
        VehFlowDir::Nx2Ny(_, _) | VehFlowDir::Px2Py(_, _) => sub_sat(
            crate::settings::DEG_180,
            angle,
        ),
        VehFlowDir::Ny2Px(_, _) | VehFlowDir::Py2Nx(_, _) => angle,
        _ => angle,
    }
}

/// The hard-nose lengths seen by a right-turn case, `(entry, exit)`.
pub open spec fn rt_hn_spec(case: VehFlowDir, hn_along: int, hn_across: int) -> (int, int) {
    match case {
        VehFlowDir::Nx2Ny(_, _) | VehFlowDir::Px2Py(_, _) => (hn_along, hn_across),
        VehFlowDir::Ny2Px(_, _) | VehFlowDir::Py2Nx(_, _) => (hn_across, hn_along),
        _ => (hn_along, hn_across),
    }
}

/// The frame transform of a turning movement: the crossing point of the
/// source lane's centerline with the destination border line (offset inward
/// by the drawn exit padding), under the rotation of the movement's case.
#[verifier::opaque]
pub open spec fn turn_iso_spec(
    case: VehFlowDir,
    lane: int,
    width_along: int,
    width_across: int,
    padding: int,
    c: int,
    s: int,
) -> Iso {
    let rl = ROAD_LENGTH_FP as int;
    let rot = Rot { c: c as i64, s: s as i64 };
    let border_across = sub_sat_spec(mul_sat_spec(width_across, 500_000), padding);
    let border_along = sub_sat_spec(mul_sat_spec(width_along, 500_000), padding);
    let p0p = Vec2 { x: (-rl) as i64, y: lane as i64 };
    let p1p = Vec2 { x: rl as i64, y: lane as i64 };
    let p0r = rot_apply_spec(rot, p0p);
    let p1r = rot_apply_spec(rot, p1p);
    match case {
        VehFlowDir::Nx2Py(_, _) => {
            let y2 = border_across;
            let q0 = rot_apply_spec(rot, Vec2 { x: (-rl) as i64, y: y2 as i64 });
            let q1 = rot_apply_spec(rot, Vec2 { x: rl as i64, y: y2 as i64 });
            Iso {
                rot: Rot { c: crate::FP_ONE, s: 0 },
                t: intersection_spec(p0p, p1p, q0, q1),
            }
        },
        VehFlowDir::Py2Px(_, _) => {
            let y2 = border_along;
            let q0 = Vec2 { x: (-rl) as i64, y: y2 as i64 };
            let q1 = Vec2 { x: rl as i64, y: y2 as i64 };
            Iso {
                rot: Rot { c: (-c) as i64, s: (-s) as i64 },
                t: intersection_spec(p0r, p1r, q0, q1),
            }
        },
        VehFlowDir::Px2Ny(_, _) => {
            let y2 = -border_across;
            let q0 = rot_apply_spec(rot, Vec2 { x: (-rl) as i64, y: y2 as i64 });
            let q1 = rot_apply_spec(rot, Vec2 { x: rl as i64, y: y2 as i64 });
            Iso {
                rot: Rot { c: (-(crate::FP_ONE as int)) as i64, s: 0 },
                t: intersection_spec(p0p, p1p, q0, q1),
            }
        },
        VehFlowDir::Ny2Nx(_, _) => {
            let y2 = -border_along;
            let q0 = Vec2 { x: (-rl) as i64, y: y2 as i64 };
            let q1 = Vec2 { x: rl as i64, y: y2 as i64 };
            Iso {
                rot: Rot { c: c as i64, s: s as i64 },
                t: intersection_spec(p0r, p1r, q0, q1),
            }
        },
        VehFlowDir::Nx2Ny(_, _) => {
            let y2 = -border_across;
            let q0 = rot_apply_spec(rot, Vec2 { x: (-rl) as i64, y: y2 as i64 });
            let q1 = rot_apply_spec(rot, Vec2 { x: rl as i64, y: y2 as i64 });
            Iso {
                rot: Rot { c: crate::FP_ONE, s: 0 },
                t: intersection_spec(p0p, p1p, q0, q1),
            }
        },
        VehFlowDir::Ny2Px(_, _) => {
            let y2 = border_along;
            let q0 = Vec2 { x: (-rl) as i64, y: y2 as i64 };
            let q1 = Vec2 { x: rl as i64, y: y2 as i64 };
            Iso {
                rot: Rot { c: c as i64, s: s as i64 },
                t: intersection_spec(p0r, p1r, q0, q1),
            }
        },
        VehFlowDir::Px2Py(_, _) => {
            let y2 = border_across;
            let q0 = rot_apply_spec(rot, Vec2 { x: (-rl) as i64, y: y2 as i64 });
            let q1 = rot_apply_spec(rot, Vec2 { x: rl as i64, y: y2 as i64 });
            Iso {
                rot: Rot { c: (-(crate::FP_ONE as int)) as i64, s: 0 },
                t: intersection_spec(p0p, p1p, q0, q1),
            }
        },
        VehFlowDir::Py2Nx(_, _) => {
            let y2 = -border_along;
            let q0 = Vec2 { x: (-rl) as i64, y: y2 as i64 };
            let q1 = Vec2 { x: rl as i64, y: y2 as i64 };
            Iso {
                rot: Rot { c: (-c) as i64, s: (-s) as i64 },
                t: intersection_spec(p0r, p1r, q0, q1),
            }
        },
        _ => Iso { rot: Rot { c: crate::FP_ONE, s: 0 }, t: Vec2 { x: 0, y: 0 } },
    }
}

/// Builds the frame transform of a turning movement.
pub fn turn_iso(case: VehFlowDir, lane: i64, width_along: i64, width_across: i64, padding: i64, c: i64, s: i64) -> (r: Iso)
    requires
        in_range(lane as int),
        in_range(width_along as int),
        in_range(width_across as int),
        in_range(padding as int),
        in_range(c as int),
        in_range(s as int),
    ensures
        r == turn_iso_spec(
            case,
            lane as int,
            width_along as int,
            width_across as int,
            padding as int,
            c as int,
            s as int,
        ),
        crate::path::iso_in_range(r),
{
    proof {
        reveal(crate::sampler::turn_iso_spec);
    }
    let rot = Rot { c, s };
    let border_across = sub_sat(mul_sat(width_across, 500_000), padding);
    let border_along = sub_sat(mul_sat(width_along, 500_000), padding);
    let p0p = Vec2 { x: -ROAD_LENGTH_FP, y: lane };
    let p1p = Vec2 { x: ROAD_LENGTH_FP, y: lane };
    let p0r = rot_point(rot, p0p);
    let p1r = rot_point(rot, p1p);
    match case {
        VehFlowDir::Nx2Py(_, _) => {
            let q0 = rot_point(rot, Vec2 { x: -ROAD_LENGTH_FP, y: border_across });
            let q1 = rot_point(rot, Vec2 { x: ROAD_LENGTH_FP, y: border_across });
            Iso { rot: Rot { c: crate::FP_ONE, s: 0 }, t: intersection_point(p0p, p1p, q0, q1) }
        },
        VehFlowDir::Py2Px(_, _) => {
            let q0 = Vec2 { x: -ROAD_LENGTH_FP, y: border_along };
            let q1 = Vec2 { x: ROAD_LENGTH_FP, y: border_along };
            Iso { rot: Rot { c: -c, s: -s }, t: intersection_point(p0r, p1r, q0, q1) }
        },
        VehFlowDir::Px2Ny(_, _) => {
            let q0 = rot_point(rot, Vec2 { x: -ROAD_LENGTH_FP, y: -border_across });
            let q1 = rot_point(rot, Vec2 { x: ROAD_LENGTH_FP, y: -border_across });
            Iso { rot: Rot { c: -crate::FP_ONE, s: 0 }, t: intersection_point(p0p, p1p, q0, q1) }
        },
        VehFlowDir::Ny2Nx(_, _) => {
            let q0 = Vec2 { x: -ROAD_LENGTH_FP, y: -border_along };
            let q1 = Vec2 { x: ROAD_LENGTH_FP, y: -border_along };
            Iso { rot: Rot { c, s }, t: intersection_point(p0r, p1r, q0, q1) }
        },
        VehFlowDir::Nx2Ny(_, _) => {
            let q0 = rot_point(rot, Vec2 { x: -ROAD_LENGTH_FP, y: -border_across });
            let q1 = rot_point(rot, Vec2 { x: ROAD_LENGTH_FP, y: -border_across });
            Iso { rot: Rot { c: crate::FP_ONE, s: 0 }, t: intersection_point(p0p, p1p, q0, q1) }
        },
        VehFlowDir::Ny2Px(_, _) => {
            let q0 = Vec2 { x: -ROAD_LENGTH_FP, y: border_along };
            let q1 = Vec2 { x: ROAD_LENGTH_FP, y: border_along };
            Iso { rot: Rot { c, s }, t: intersection_point(p0r, p1r, q0, q1) }
        },
        VehFlowDir::Px2Py(_, _) => {
            let q0 = rot_point(rot, Vec2 { x: -ROAD_LENGTH_FP, y: border_across });
            let q1 = rot_point(rot, Vec2 { x: ROAD_LENGTH_FP, y: border_across });
            Iso { rot: Rot { c: -crate::FP_ONE, s: 0 }, t: intersection_point(p0p, p1p, q0, q1) }
        },
        VehFlowDir::Py2Nx(_, _) => {
            let q0 = Vec2 { x: -ROAD_LENGTH_FP, y: -border_along };
            let q1 = Vec2 { x: ROAD_LENGTH_FP, y: -border_along };
            Iso { rot: Rot { c: -c, s: -s }, t: intersection_point(p0r, p1r, q0, q1) }
        },
        _ => Iso { rot: Rot { c: crate::FP_ONE, s: 0 }, t: Vec2 { x: 0, y: 0 } },
    }
}

/// Applies a rotation to a point.
fn rot_point(r: Rot, p: Vec2) -> (q: Vec2)
    requires
        in_range(r.c as int),
        in_range(r.s as int),
        vec2_in_range(p),
    ensures
        q == rot_apply_spec(r, p),
        vec2_in_range(q),
{
    Vec2 {
        x: sub_sat(mul_sat(r.c, p.x), mul_sat(r.s, p.y)),
        y: add_sat(mul_sat(r.s, p.x), mul_sat(r.c, p.y)),
    }
}

/// Builds a copy of the series with `dx` subtracted from every first
/// component and `dy` from every second.
fn shift_series(v: &Vec<Vec2>, dx: i64, dy: i64) -> (r: Vec<Vec2>)
    requires
        in_range(dx as int),
        in_range(dy as int),
        forall|i: int| 0 <= i < v@.len() ==> #[trigger] vec2_in_range(v@[i]),
    ensures
        r@.len() == v@.len(),
        forall|i: int|
            0 <= i < v@.len() ==> #[trigger] r@[i] == (Vec2 {
                x: sub_sat_spec(v@[i].x as int, dx as int) as i64,
                y: sub_sat_spec(v@[i].y as int, dy as int) as i64,
            }),
{
    let n = v.len();
    let mut out: Vec<Vec2> = Vec::new();
    let mut i: usize = 0;
    while i < n
        invariant
            n == v@.len(),
            in_range(dx as int),
            in_range(dy as int),
            forall|j: int| 0 <= j < v@.len() ==> #[trigger] vec2_in_range(v@[j]),
            i <= n,
            out@.len() == i,
            forall|j: int|
                0 <= j < i ==> #[trigger] out@[j] == (Vec2 {
                    x: sub_sat_spec(v@[j].x as int, dx as int) as i64,
                    y: sub_sat_spec(v@[j].y as int, dy as int) as i64,
                }),
        decreases n - i,
    {
        proof {
            assert(vec2_in_range(v@[i as int]));
        }
        out.push(Vec2 { x: sub_sat(v[i].x, dx), y: sub_sat(v[i].y, dy) });
        i = i + 1;
    }
    out
}

/// Builds a copy of the path with every point shifted by the negated origin
/// and carried through the frame transform.
fn place_series(v: &Vec<Vec2>, origin: Vec2, iso: &Iso) -> (r: Vec<Vec2>)
    requires
        vec2_in_range(origin),
        crate::path::iso_in_range(*iso),
        forall|i: int| 0 <= i < v@.len() ==> #[trigger] vec2_in_range(v@[i]),
    ensures
        r@.len() == v@.len(),
        forall|i: int|
            0 <= i < v@.len() ==> #[trigger] r@[i] == iso_apply_spec(
                *iso,
                Vec2 {
                    x: sub_sat_spec(v@[i].x as int, origin.x as int) as i64,
                    y: sub_sat_spec(v@[i].y as int, origin.y as int) as i64,
                },
            ),
{
    let n = v.len();
    let mut out: Vec<Vec2> = Vec::new();
    let mut i: usize = 0;
    while i < n
        invariant
            n == v@.len(),
            vec2_in_range(origin),
            crate::path::iso_in_range(*iso),
            forall|j: int| 0 <= j < v@.len() ==> #[trigger] vec2_in_range(v@[j]),
            i <= n,
            out@.len() == i,
            forall|j: int|
                0 <= j < i ==> #[trigger] out@[j] == iso_apply_spec(
                    *iso,
                    Vec2 {
                        x: sub_sat_spec(v@[j].x as int, origin.x as int) as i64,
                        y: sub_sat_spec(v@[j].y as int, origin.y as int) as i64,
                    },
                ),
        decreases n - i,
    {
        proof {
            assert(vec2_in_range(v@[i as int]));
        }
        let p = Vec2 { x: sub_sat(v[i].x, origin.x), y: sub_sat(v[i].y, origin.y) };
        out.push(iso_apply(iso, p));
        i = i + 1;
    }
    out
}


/// The concatenated velocity series of a turn: the inflow half from `v_in`
/// down to the apex, then the outflow half from the apex toward `v_out`,
/// time-offset by the inflow duration.
pub open spec fn vel_seq(c_in: int, t_min: int, v_in: int, c_out: int, t_next: int, v_min: int) -> Seq<Vec2> {
    Seq::new(half_len(t_min) as nat, |k: int| half_sample(c_in, t_min, v_in, 0, k)) + Seq::new(
        half_len(t_next) as nat,
        |k: int| half_sample(-c_out, t_next, v_min, t_min, k),
    )
}

/// The trapezoidal position series of a velocity series.
pub open spec fn pos_seq(vel: Seq<Vec2>) -> Seq<Vec2> {
    Seq::new(
        vel.len(),
        |i: int| Vec2 { x: pos_t_at(vel, i) as i64, y: pos_x_at(vel, i) as i64 },
    )
}

/// The curvature series of a turn over its position series.
pub open spec fn curv_seq(vel: Seq<Vec2>, g: ClothoidGeom, x_o: int, left: bool) -> Seq<Vec2> {
    Seq::new(
        vel.len(),
        |i: int| Vec2 {
            x: pos_x_at(vel, i) as i64,
            y: curvature_at_spec(g, x_o, left, pos_x_at(vel, i)) as i64,
        },
    )
}

/// The movement-local trajectory of a turn, by Euler integration.
pub open spec fn traj_seq(vel: Seq<Vec2>, curv: Seq<Vec2>) -> Seq<Vec2> {
    Seq::new(
        vel.len(),
        |i: int| Vec2 {
            x: traj_x_after(vel, curv, i) as i64,
            y: traj_y_after(vel, curv, i) as i64,
        },
    )
}

/// What a successful turning-vehicle sample looks like, for the outflow
/// half-duration witness `tn`: the cube-root characterizations of both half
/// durations, the echoed draw values, and every series pinned pointwise —
/// velocity and position shifted to the origin time, positions and
/// curvature shifted to the origin offset, and the trajectory anchored at
/// the crossing point of its end tangents and placed by the frame
/// transform.
#[verifier::opaque]
pub open spec fn turn_output_ok(
    d: VehDraws,
    g: ClothoidGeom,
    left: bool,
    iso: Iso,
    out: VehOutput,
    tn: int,
) -> bool {
    let vel = vel_seq(d.c_in as int, out.t_min as int, d.v_in as int, d.c_out as int, tn, d.v_min as int);
    let n = vel.len() as int;
    let x_o = sub_sat_spec(apex_pos_x(vel, out.t_min as int, n), d.x_min as int);
    let pos = pos_seq(vel);
    let t_o = origin_time_spec(pos, x_o, n);
    let curv = curv_seq(vel, g, x_o, left);
    let raw = traj_seq(vel, curv);
    &&& is_cbrt_fp(inflow_radicand(d), out.t_min as int)
    &&& is_cbrt_fp(outflow_radicand(d), tn)
    &&& out.c_in == d.c_in
    &&& out.c_out == d.c_out
    &&& out.v_min == d.v_min
    &&& out.x_min == d.x_min
    &&& out.t_exit as int == add_sat_spec(out.t_min as int, tn)
    &&& out.x_o as int == x_o
    &&& out.t_o as int == t_o
    &&& out.max_step as int == n
    &&& out.velocity_series@.len() == n
    &&& forall|i: int|
        0 <= i < n ==> out.velocity_series@[i] == (Vec2 {
            x: sub_sat_spec(vel[i].x as int, t_o) as i64,
            y: sub_sat_spec(vel[i].y as int, 0) as i64,
        })
    &&& out.position_series@.len() == n
    &&& forall|i: int|
        0 <= i < n ==> out.position_series@[i] == (Vec2 {
            x: sub_sat_spec(pos[i].x as int, t_o) as i64,
            y: sub_sat_spec(pos[i].y as int, x_o) as i64,
        })
    &&& out.curvature_series@.len() == n
    &&& forall|i: int|
        0 <= i < n ==> out.curvature_series@[i] == (Vec2 {
            x: sub_sat_spec(curv[i].x as int, x_o) as i64,
            y: sub_sat_spec(curv[i].y as int, 0) as i64,
        })
    &&& out.trajectory_series@.len() == n
    &&& if n > 2 {
        let o = intersection_spec(raw[0], raw[1], raw[n - 1], raw[n - 2]);
        forall|i: int|
            0 <= i < n ==> out.trajectory_series@[i] == iso_apply_spec(
                iso,
                Vec2 {
                    x: sub_sat_spec(raw[i].x as int, o.x as int) as i64,
                    y: sub_sat_spec(raw[i].y as int, o.y as int) as i64,
                },
            )
    } else {
        out.trajectory_series@ == raw
    }
}

/// The intermediate series of one turn, before origin shifting and
/// placement.
struct TurnSeries {
    t_min: i64,
    t_next: i64,
    x_o: i64,
    t_o: i64,
    vel: Vec<Vec2>,
    pos: Vec<Vec2>,
    curv: Vec<Vec2>,
    traj: Vec<Vec2>,
}

/// The intermediate series are exactly the spec-level series of the drawn
/// values, and everything is in range.
spec fn series_ok(d: VehDraws, g: ClothoidGeom, left: bool, ts: TurnSeries) -> bool {
    let vels = vel_seq(d.c_in as int, ts.t_min as int, d.v_in as int, d.c_out as int, ts.t_next as int, d.v_min as int);
    &&& is_cbrt_fp(inflow_radicand(d), ts.t_min as int)
    &&& is_cbrt_fp(outflow_radicand(d), ts.t_next as int)
    &&& in_range(ts.t_min as int)
    &&& in_range(ts.t_next as int)
    &&& in_range(ts.x_o as int)
    &&& in_range(ts.t_o as int)
    &&& ts.vel@ == vels
    &&& ts.x_o as int == sub_sat_spec(
        apex_pos_x(vels, ts.t_min as int, vels.len() as int),
        d.x_min as int,
    )
    &&& ts.pos@ == pos_seq(vels)
    &&& ts.t_o as int == origin_time_spec(pos_seq(vels), ts.x_o as int, vels.len() as int)
    &&& ts.curv@ == curv_seq(vels, g, ts.x_o as int, left)
    &&& ts.traj@ == traj_seq(vels, curv_seq(vels, g, ts.x_o as int, left))
    &&& forall|i: int| 0 <= i < ts.vel@.len() ==> #[trigger] vec2_in_range(ts.vel@[i])
    &&& forall|i: int| 0 <= i < ts.pos@.len() ==> #[trigger] vec2_in_range(ts.pos@[i])
    &&& forall|i: int| 0 <= i < ts.curv@.len() ==> #[trigger] vec2_in_range(ts.curv@[i])
    &&& forall|i: int| 0 <= i < ts.traj@.len() ==> #[trigger] vec2_in_range(ts.traj@[i])
}

/// Builds the velocity and position series of one turn.
#[verifier::rlimit(60)]
fn turn_profile(d: VehDraws) -> (r: (i64, i64, Vec<Vec2>, Vec<Vec2>, i64))
    requires
        draws_in_range(d),
    ensures
        ({
            let (t_min, t_next, vel, pos, x_o) = r;
            let vels = vel_seq(
                d.c_in as int,
                t_min as int,
                d.v_in as int,
                d.c_out as int,
                t_next as int,
                d.v_min as int,
            );
            &&& is_cbrt_fp(inflow_radicand(d), t_min as int)
            &&& is_cbrt_fp(outflow_radicand(d), t_next as int)
            &&& in_range(t_min as int)
            &&& in_range(t_next as int)
            &&& in_range(x_o as int)
            &&& vel@ == vels
            &&& x_o as int == sub_sat_spec(
                apex_pos_x(vels, t_min as int, vels.len() as int),
                d.x_min as int,
            )
            &&& pos@ == pos_seq(vels)
            &&& forall|i: int| 0 <= i < vel@.len() ==> #[trigger] vec2_in_range(vel@[i])
            &&& forall|i: int| 0 <= i < pos@.len() ==> #[trigger] vec2_in_range(pos@[i])
        }),
{
    let rad_in = mul_sat(div_sat(2_000_000, d.c_in), sub_sat(d.v_in, d.v_min));
    let t_min = cbrt_fp(rad_in);
    let rad_out = mul_sat(div_sat(2_000_000, -d.c_out), sub_sat(d.v_min, d.v_out));
    let t_next = cbrt_fp(rad_out);
    let mut vel: Vec<Vec2> = Vec::new();
    push_half_profile(&mut vel, d.c_in, t_min, d.v_in, 0);
    push_half_profile(&mut vel, -d.c_out, t_next, d.v_min, t_min);
    let ghost vspec = vel_seq(
        d.c_in as int,
        t_min as int,
        d.v_in as int,
        d.c_out as int,
        t_next as int,
        d.v_min as int,
    );
    proof {
        assert(vel@ =~= vspec);
        assert forall|i: int| 0 <= i < vel@.len() implies #[trigger] vec2_in_range(vel@[i]) by {
            assert(vel@[i] == vspec[i]);
        }
    }
    let (pos, x_apex) = integrate_positions(&vel, t_min);
    let x_o = sub_sat(x_apex, d.x_min);
    proof {
        assert(pos@ =~= pos_seq(vel@));
        assert forall|i: int| 0 <= i < pos@.len() implies #[trigger] vec2_in_range(pos@[i]) by {
            crate::profile::lemma_pos_x_in_range(vel@, i);
        }
    }
    (t_min, t_next, vel, pos, x_o)
}

/// Builds the curvature series and trajectory of one turn and finds the
/// origin time.
#[verifier::rlimit(60)]
fn turn_curves(g: ClothoidGeom, left: bool, vel: &Vec<Vec2>, pos: &Vec<Vec2>, x_o: i64) -> (r: (
    Vec<Vec2>,
    Vec<Vec2>,
    i64,
))
    requires
        crate::clothoid::geom_in_range(g),
        in_range(x_o as int),
        pos@ == pos_seq(vel@),
        forall|i: int| 0 <= i < vel@.len() ==> #[trigger] vec2_in_range(vel@[i]),
        forall|i: int| 0 <= i < pos@.len() ==> #[trigger] vec2_in_range(pos@[i]),
    ensures
        ({
            let (curv, traj, t_o) = r;
            &&& curv@ == curv_seq(vel@, g, x_o as int, left)
            &&& traj@ == traj_seq(vel@, curv@)
            &&& t_o as int == origin_time_spec(pos@, x_o as int, vel@.len() as int)
            &&& in_range(t_o as int)
            &&& forall|i: int| 0 <= i < curv@.len() ==> #[trigger] vec2_in_range(curv@[i])
            &&& forall|i: int| 0 <= i < traj@.len() ==> #[trigger] vec2_in_range(traj@[i])
        }),
{
    let curv = build_curvature(pos, &g, x_o, left);
    proof {
        assert(curv@ =~= curv_seq(vel@, g, x_o as int, left));
        assert forall|i: int| 0 <= i < curv@.len() implies #[trigger] vec2_in_range(curv@[i]) by {
            crate::profile::lemma_pos_x_in_range(vel@, i);
            assert(curv@[i].x == pos@[i].y);
        }
    }
    let traj = build_trajectory(vel, &curv);
    let t_o = origin_time(pos, x_o);
    proof {
        assert(traj@ =~= traj_seq(vel@, curv@));
        assert forall|i: int| 0 <= i < traj@.len() implies #[trigger] vec2_in_range(traj@[i]) by {
            crate::path::lemma_traj_in_range(vel@, curv@, i);
        }
        assert(pos@.len() == vel@.len());
        crate::path::lemma_origin_time_in_range(pos@, x_o as int, pos@.len() as int);
    }
    (curv, traj, t_o)
}

/// Builds the raw series of one turn.
#[verifier::rlimit(60)]
fn turn_series(d: VehDraws, g: ClothoidGeom, left: bool) -> (ts: TurnSeries)
    requires
        draws_in_range(d),
        crate::clothoid::geom_in_range(g),
    ensures
        series_ok(d, g, left, ts),
{
    let (t_min, t_next, vel, pos, x_o) = turn_profile(d);
    let (curv, traj, t_o) = turn_curves(g, left, &vel, &pos, x_o);
    TurnSeries { t_min, t_next, x_o, t_o, vel, pos, curv, traj }
}

/// Shifts, places and assembles the output of one turn.
#[verifier::rlimit(60)]
fn turn_finish(d: VehDraws, g: ClothoidGeom, left: bool, iso: Iso, ts: TurnSeries) -> (out:
    VehOutput)
    requires
        draws_in_range(d),
        crate::path::iso_in_range(iso),
        series_ok(d, g, left, ts),
    ensures
        turn_output_ok(d, g, left, iso, out, ts.t_next as int),
{
    proof {
        reveal(crate::sampler::turn_output_ok);
    }
    let vel_out = shift_series(&ts.vel, ts.t_o, 0);
    let pos_out = shift_series(&ts.pos, ts.t_o, ts.x_o);
    let curv_out = shift_series(&ts.curv, ts.x_o, 0);
    let n = ts.traj.len();
    let traj_out = if n > 2 {
        let o = intersection_point(ts.traj[0], ts.traj[1], ts.traj[n - 1], ts.traj[n - 2]);
        place_series(&ts.traj, o, &iso)
    } else {
        let mut copy: Vec<Vec2> = Vec::new();
        let mut i: usize = 0;
        while i < n
            invariant
                n == ts.traj@.len(),
                i <= n,
                copy@.len() == i,
                forall|j: int| 0 <= j < i ==> #[trigger] copy@[j] == ts.traj@[j],
            decreases n - i,
        {
            copy.push(ts.traj[i]);
            i = i + 1;
        }
        proof {
            assert(copy@ =~= ts.traj@);
        }
        copy
    };
    VehOutput {
        c_in: d.c_in,
        c_out: d.c_out,
        v_min: d.v_min,
        x_min: d.x_min,
        t_min: ts.t_min,
        t_exit: add_sat(ts.t_min, ts.t_next),
        t_o: ts.t_o,
        x_o: ts.x_o,
        max_step: vel_out.len(),
        velocity_series: vel_out,
        position_series: pos_out,
        curvature_series: curv_out,
        trajectory_series: traj_out,
    }
}

/// A successful sample satisfies [`turn_output_ok`] for some outflow half
/// duration.
pub open spec fn turn_sample_ok(d: VehDraws, g: ClothoidGeom, left: bool, iso: Iso, out: VehOutput) -> bool {
    exists|tn: int| turn_output_ok(d, g, left, iso, out, tn)
}

/// Builds a turn from already-clamped draws, a turn angle in degrees, the
/// two clothoid parameters and the frame transform.  Returns no output
/// exactly when the remaining arc length is negative.
pub fn build_turn(d: VehDraws, theta_deg: i64, a1: i64, a2: i64, left: bool, iso: Iso) -> (r:
    Option<VehOutput>)
    requires
        draws_in_range(d),
        in_range(theta_deg as int),
        in_range(a1 as int),
        in_range(a2 as int),
        crate::path::iso_in_range(iso),
    ensures
        r.is_some() <==> clothoid_geom_spec(
            d.r_min as int,
            a1 as int,
            a2 as int,
            deg2rad_spec(theta_deg as int),
        ).l_arc >= 0,
        r.is_some() ==> turn_sample_ok(
            d,
            clothoid_geom_spec(d.r_min as int, a1 as int, a2 as int, deg2rad_spec(theta_deg as int)),
            left,
            iso,
            r.unwrap(),
        ),
{
    let theta_rad = deg2rad(theta_deg);
    let g = clothoid_geom(d.r_min, a1, a2, theta_rad);
    if g.l_arc < 0 {
        return None;
    }
    let ts = turn_series(d, g, left);
    let ghost tn = ts.t_next as int;
    let out = turn_finish(d, g, left, iso, ts);
    proof {
        let gg = clothoid_geom_spec(
            d.r_min as int,
            a1 as int,
            a2 as int,
            deg2rad_spec(theta_deg as int),
        );
        assert(turn_output_ok(d, gg, left, iso, out, tn));
        assert(turn_sample_ok(d, gg, left, iso, out));
    }
    Some(out)
}


/// The movement case of a left-turn flow (meaningful when the flow is
/// well-formed).
pub open spec fn lt_case_of(f: VehFlow) -> VehFlowDir {
    crate::dir::left_turn_case_spec(f.src_dir, f.dst_dir, f.src_lane, f.dst_lane).unwrap()
}

/// The movement case of a right-turn flow.
pub open spec fn rt_case_of(f: VehFlow) -> VehFlowDir {
    crate::dir::right_turn_case_spec(f.src_dir, f.dst_dir, f.src_lane, f.dst_lane).unwrap()
}

/// The source lane offset of a movement case.
pub open spec fn src_lane_offset(s: Settings, case: VehFlowDir, idx: int) -> int {
    if src_uses_along(case) {
        s.lane_along@[idx] as int
    } else {
        s.lane_across@[idx] as int
    }
}

/// The fixed-point cosine of the configured intersection angle.
pub open spec fn settings_rot_c(s: Settings) -> int {
    cos_fp_spec(deg2rad_spec(s.angle as int))
}

/// The fixed-point sine of the configured intersection angle.
pub open spec fn settings_rot_s(s: Settings) -> int {
    sin_fp_spec(deg2rad_spec(s.angle as int))
}

/// The turn angle of a left-turn flow, in fixed-point degrees.
pub open spec fn lt_theta_spec(s: Settings, f: VehFlow) -> int {
    turn_angle_spec(lt_case_of(f), s.angle as int)
}

/// The turn angle of a right-turn flow, in fixed-point degrees.
pub open spec fn rt_theta_spec(s: Settings, f: VehFlow) -> int {
    turn_angle_spec(rt_case_of(f), s.angle as int)
}

/// The derived clothoid-arc geometry of a left-turn sample.
pub open spec fn lt_geom_of(s: Settings, f: VehFlow, d: VehDraws) -> ClothoidGeom {
    clothoid_geom_spec(
        d.r_min as int,
        lt_a1_spec(lt_theta_spec(s, f), s.radius as int, d.padding as int, d.v_min as int),
        lt_a2_spec(s.radius as int, dummy_fp(d.large), d.padding as int, d.v_min as int),
        deg2rad_spec(lt_theta_spec(s, f)),
    )
}

/// The frame transform of a left-turn sample.
pub open spec fn lt_iso_of(s: Settings, f: VehFlow, d: VehDraws) -> Iso {
    turn_iso_spec(
        lt_case_of(f),
        src_lane_offset(s, lt_case_of(f), f.src_lane as int),
        s.width_along as int,
        s.width_across as int,
        d.padding as int,
        settings_rot_c(s),
        settings_rot_s(s),
    )
}

/// The entry hard-nose length of a right-turn sample.
pub open spec fn rt_hn_in_of(s: Settings, f: VehFlow) -> int {
    rt_hn_spec(rt_case_of(f), s.hn_along as int, s.hn_across as int).0
}

/// The exit hard-nose length of a right-turn sample.
pub open spec fn rt_hn_out_of(s: Settings, f: VehFlow) -> int {
    rt_hn_spec(rt_case_of(f), s.hn_along as int, s.hn_across as int).1
}

/// The derived clothoid-arc geometry of a right-turn sample.
pub open spec fn rt_geom_of(s: Settings, f: VehFlow, d: VehDraws) -> ClothoidGeom {
    clothoid_geom_spec(
        d.r_min as int,
        rt_a1_spec(d.v_min as int, d.r_min as int, rt_hn_in_of(s, f)),
        rt_a2_spec(d.v_min as int, d.r_min as int, rt_hn_out_of(s, f)),
        deg2rad_spec(rt_theta_spec(s, f)),
    )
}

/// The frame transform of a right-turn sample.
pub open spec fn rt_iso_of(s: Settings, f: VehFlow, d: VehDraws) -> Iso {
    turn_iso_spec(
        rt_case_of(f),
        src_lane_offset(s, rt_case_of(f), f.src_lane as int),
        s.width_along as int,
        s.width_across as int,
        d.padding as int,
        settings_rot_c(s),
        settings_rot_s(s),
    )
}

/// Samples one left-turning vehicle from the drawn parameters: succeeds
/// exactly when the drawn clothoid/radius combination leaves a nonnegative
/// arc length, and then produces the discretized, placed turn described by
/// [`turn_output_ok`] with positive (leftward) curvature.
pub fn compute_lt_veh(s: &Settings, f: &VehFlow, draws: &VehDraws) -> (r: Option<VehOutput>)
    requires
        s.geom_wf(),
        s.lt_flow_wf(*f),
    ensures
        r.is_some() <==> lt_geom_of(*s, *f, clamp_draws_spec(*draws)).l_arc >= 0,
        r.is_some() ==> turn_sample_ok(
            clamp_draws_spec(*draws),
            lt_geom_of(*s, *f, clamp_draws_spec(*draws)),
            true,
            lt_iso_of(*s, *f, clamp_draws_spec(*draws)),
            r.unwrap(),
        ),
{
    let d = clamp_draws(draws);
    let case = match crate::dir::left_turn_case(f.src_dir, f.dst_dir, f.src_lane, f.dst_lane) {
        Some(c) => c,
        None => {
            proof {
                assert(false);
            }
            return None;
        },
    };
    let theta_deg = turn_angle(case, s.angle);
    let (a1, a2) = lt_clothoid_params(theta_deg, s.radius, d.padding, d.large, d.v_min);
    let rc = cos_fp(deg2rad(s.angle));
    let rs_ = sin_fp(deg2rad(s.angle));
    let lane = if crate::settings::src_uses_along_check(case) {
        lane_offset_at(&s.lane_along, f.src_lane)
    } else {
        lane_offset_at(&s.lane_across, f.src_lane)
    };
    let iso = turn_iso(case, lane, s.width_along, s.width_across, d.padding, rc, rs_);
    build_turn(d, theta_deg, a1, a2, true, iso)
}

/// Samples one right-turning vehicle from the drawn parameters: succeeds
/// exactly when the drawn clothoid/radius combination leaves a nonnegative
/// arc length, and then produces the discretized, placed turn described by
/// [`turn_output_ok`] with negative (rightward) curvature.
pub fn compute_rt_veh(s: &Settings, f: &VehFlow, draws: &VehDraws) -> (r: Option<VehOutput>)
    requires
        s.geom_wf(),
        s.rt_flow_wf(*f),
    ensures
        r.is_some() <==> rt_geom_of(*s, *f, clamp_draws_spec(*draws)).l_arc >= 0,
        r.is_some() ==> turn_sample_ok(
            clamp_draws_spec(*draws),
            rt_geom_of(*s, *f, clamp_draws_spec(*draws)),
            false,
            rt_iso_of(*s, *f, clamp_draws_spec(*draws)),
            r.unwrap(),
        ),
{
    let d = clamp_draws(draws);
    let case = match crate::dir::right_turn_case(f.src_dir, f.dst_dir, f.src_lane, f.dst_lane) {
        Some(c) => c,
        None => {
            proof {
                assert(false);
            }
            return None;
        },
    };
    let theta_deg = turn_angle(case, s.angle);
    let (hn_in, hn_out) = match case {
        VehFlowDir::Nx2Ny(_, _) | VehFlowDir::Px2Py(_, _) => (s.hn_along, s.hn_across),
        VehFlowDir::Ny2Px(_, _) | VehFlowDir::Py2Nx(_, _) => (s.hn_across, s.hn_along),
        _ => (s.hn_along, s.hn_across),
    };
    let (a1, a2) = rt_clothoid_params(d.v_min, d.r_min, hn_in, hn_out);
    let rc = cos_fp(deg2rad(s.angle));
    let rs_ = sin_fp(deg2rad(s.angle));
    let lane = if crate::settings::src_uses_along_check(case) {
        lane_offset_at(&s.lane_along, f.src_lane)
    } else {
        lane_offset_at(&s.lane_across, f.src_lane)
    };
    let iso = turn_iso(case, lane, s.width_along, s.width_across, d.padding, rc, rs_);
    build_turn(d, theta_deg, a1, a2, false, iso)
}

/// Reads one lane offset.
fn lane_offset_at(lanes: &Vec<i64>, idx: usize) -> (r: i64)
    requires
        idx < lanes@.len(),
    ensures
        r == lanes@[idx as int],
{
    lanes[idx]
}


/// Executable mirror of [`rt_hn_spec`].
pub fn rt_hard_noses(case: VehFlowDir, hn_along: i64, hn_across: i64) -> (r: (i64, i64))
    ensures
        r.0 as int == rt_hn_spec(case, hn_along as int, hn_across as int).0,
        r.1 as int == rt_hn_spec(case, hn_along as int, hn_across as int).1,
{
    match case {
        VehFlowDir::Nx2Ny(_, _) | VehFlowDir::Px2Py(_, _) => (hn_along, hn_across),
        VehFlowDir::Ny2Px(_, _) | VehFlowDir::Py2Nx(_, _) => (hn_across, hn_along),
        _ => (hn_along, hn_across),
    }
}

} // verus!
