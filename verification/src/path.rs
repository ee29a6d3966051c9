//! Paths in the plane: the Euler heading integrator, the generic two-line
//! intersection primitive, and the rigid frame transforms that place a
//! movement-local path into intersection coordinates.

use vstd::prelude::*;
use crate::fixed::add_sat;
use crate::fixed::add_sat_spec;
use crate::fixed::div_sat;
use crate::fixed::div_sat_spec;
use crate::fixed::in_range;
use crate::fixed::mul_sat;
use crate::fixed::mul_sat_spec;
use crate::fixed::sub_sat;
use crate::fixed::sub_sat_spec;
use crate::profile::Vec2;
use crate::profile::vec2_in_range;
use crate::profile::STEP_FP;
use crate::trig::cos_fp;
use crate::trig::cos_fp_spec;
use crate::trig::sin_fp;
use crate::trig::sin_fp_spec;

verus! {

/// The crossing point of the line through `p0`, `p1` with the line through
/// `q0`, `q1`, by solving the 2-by-2 linear system of the two line
/// equations.  Parallel lines make the denominator zero; the division rule
/// of [`div_sat_spec`] then applies, where binary floating point would
/// produce an infinity.
pub open spec fn intersection_spec(p0: Vec2, p1: Vec2, q0: Vec2, q1: Vec2) -> Vec2 {
    let a_p = sub_sat_spec(p1.y as int, p0.y as int);
    let b_p = sub_sat_spec(p0.x as int, p1.x as int);
    let c_p = -add_sat_spec(mul_sat_spec(a_p, p0.x as int), mul_sat_spec(b_p, p0.y as int));
    let a_q = sub_sat_spec(q1.y as int, q0.y as int);
    let b_q = sub_sat_spec(q0.x as int, q1.x as int);
    let c_q = -add_sat_spec(mul_sat_spec(a_q, q0.x as int), mul_sat_spec(b_q, q0.y as int));
    let den = sub_sat_spec(mul_sat_spec(a_p, b_q), mul_sat_spec(a_q, b_p));
    let x = div_sat_spec(sub_sat_spec(mul_sat_spec(b_p, c_q), mul_sat_spec(b_q, c_p)), den);
    let y = div_sat_spec(sub_sat_spec(mul_sat_spec(a_q, c_p), mul_sat_spec(a_p, c_q)), den);
    Vec2 { x: x as i64, y: y as i64 }
}

/// Executable mirror of [`intersection_spec`].
pub fn intersection_point(p0: Vec2, p1: Vec2, q0: Vec2, q1: Vec2) -> (r: Vec2)
    requires
        vec2_in_range(p0),
        vec2_in_range(p1),
        vec2_in_range(q0),
        vec2_in_range(q1),
    ensures
        r == intersection_spec(p0, p1, q0, q1),
        vec2_in_range(r),
{
    let a_p = sub_sat(p1.y, p0.y);
    let b_p = sub_sat(p0.x, p1.x);
    let c_p = -add_sat(mul_sat(a_p, p0.x), mul_sat(b_p, p0.y));
    let a_q = sub_sat(q1.y, q0.y);
    let b_q = sub_sat(q0.x, q1.x);
    let c_q = -add_sat(mul_sat(a_q, q0.x), mul_sat(b_q, q0.y));
    let den = sub_sat(mul_sat(a_p, b_q), mul_sat(a_q, b_p));
    let x = div_sat(sub_sat(mul_sat(b_p, c_q), mul_sat(b_q, c_p)), den);
    let y = div_sat(sub_sat(mul_sat(a_q, c_p), mul_sat(a_p, c_q)), den);
    Vec2 { x, y }
}

/// The two-line solve is exact over the mathematical model: writing each
/// line as `a x + b y + c == 0`, the homogeneous solution with numerators
/// `x = b_p c_q - b_q c_p` and `y = a_q c_p - a_p c_q` over the determinant
/// `a_p b_q - a_q b_p` satisfies both line equations identically.  So
/// whenever the determinant is nonzero, the exact crossing point
/// `(x / det, y / det)` lies on both lines; the executable mirror rounds
/// each of these quantities as its contract states.
pub proof fn lemma_intersection_on_both_lines(
    a_p: int,
    b_p: int,
    c_p: int,
    a_q: int,
    b_q: int,
    c_q: int,
)
    ensures
        a_p * (b_p * c_q - b_q * c_p) + b_p * (a_q * c_p - a_p * c_q) + c_p * (a_p * b_q - a_q
            * b_p) == 0,
        a_q * (b_p * c_q - b_q * c_p) + b_q * (a_q * c_p - a_p * c_q) + c_q * (a_p * b_q - a_q
            * b_p) == 0,
{
    assert(a_p * (b_p * c_q - b_q * c_p) + b_p * (a_q * c_p - a_p * c_q) + c_p * (a_p * b_q - a_q
        * b_p) == 0) by (nonlinear_arith);
    assert(a_q * (b_p * c_q - b_q * c_p) + b_q * (a_q * c_p - a_p * c_q) + c_q * (a_p * b_q - a_q
        * b_p) == 0) by (nonlinear_arith);
}

/// A rotation, stored as the fixed-point cosine and sine of its angle.
#[derive(Clone, Copy, PartialEq, Eq, Structural, Debug)]
pub struct Rot {
    pub c: i64,
    pub s: i64,
}

/// A rigid frame transform: a rotation followed by a translation.
#[derive(Clone, Copy, PartialEq, Eq, Structural, Debug)]
pub struct Iso {
    pub rot: Rot,
    pub t: Vec2,
}

/// A transform whose components are in the saturating range.
pub open spec fn iso_in_range(iso: Iso) -> bool {
    in_range(iso.rot.c as int) && in_range(iso.rot.s as int) && vec2_in_range(iso.t)
}

/// The rotation applied to a point.
pub open spec fn rot_apply_spec(r: Rot, p: Vec2) -> Vec2 {
    Vec2 {
        x: sub_sat_spec(mul_sat_spec(r.c as int, p.x as int), mul_sat_spec(r.s as int, p.y as int))
            as i64,
        y: add_sat_spec(mul_sat_spec(r.s as int, p.x as int), mul_sat_spec(r.c as int, p.y as int))
            as i64,
    }
}

/// The frame transform applied to a point: rotate, then translate.
pub open spec fn iso_apply_spec(iso: Iso, p: Vec2) -> Vec2 {
    let r = rot_apply_spec(iso.rot, p);
    Vec2 {
        x: add_sat_spec(r.x as int, iso.t.x as int) as i64,
        y: add_sat_spec(r.y as int, iso.t.y as int) as i64,
    }
}

/// The inverse frame transform applied to a point: untranslate, then rotate
/// by the transposed rotation.
pub open spec fn iso_unapply_spec(iso: Iso, p: Vec2) -> Vec2 {
    let d = Vec2 {
        x: sub_sat_spec(p.x as int, iso.t.x as int) as i64,
        y: sub_sat_spec(p.y as int, iso.t.y as int) as i64,
    };
    rot_apply_spec(Rot { c: iso.rot.c, s: (-(iso.rot.s as int)) as i64 }, d)
}

/// Executable mirror of [`iso_apply_spec`].
pub fn iso_apply(iso: &Iso, p: Vec2) -> (r: Vec2)
    requires
        iso_in_range(*iso),
        vec2_in_range(p),
    ensures
        r == iso_apply_spec(*iso, p),
        vec2_in_range(r),
{
    let rx = sub_sat(mul_sat(iso.rot.c, p.x), mul_sat(iso.rot.s, p.y));
    let ry = add_sat(mul_sat(iso.rot.s, p.x), mul_sat(iso.rot.c, p.y));
    Vec2 { x: add_sat(rx, iso.t.x), y: add_sat(ry, iso.t.y) }
}

/// Executable mirror of [`iso_unapply_spec`].
pub fn iso_unapply(iso: &Iso, p: Vec2) -> (r: Vec2)
    requires
        iso_in_range(*iso),
        vec2_in_range(p),
    ensures
        r == iso_unapply_spec(*iso, p),
        vec2_in_range(r),
{
    let dx = sub_sat(p.x, iso.t.x);
    let dy = sub_sat(p.y, iso.t.y);
    let rx = sub_sat(mul_sat(iso.rot.c, dx), mul_sat(-iso.rot.s, dy));
    let ry = add_sat(mul_sat(-iso.rot.s, dx), mul_sat(iso.rot.c, dy));
    Vec2 { x: rx, y: ry }
}

/// Round trip of a frame transform over the exact model: rotating a point,
/// translating it, undoing the translation and rotating by the transposed
/// rotation recovers the point, scaled by the squared norm of the rotation
/// pair.  With an exactly unit rotation (`c^2 + s^2 == u^2` at scale `u`)
/// the placed trajectory transformed by the inverse of its frame transform
/// is the pre-transform local path.
pub proof fn lemma_frame_round_trip(c: int, s: int, u: int, tx: int, ty: int, x: int, y: int)
    requires
        c * c + s * s == u * u,
    ensures
        c * ((c * x - s * y + tx) - tx) + s * ((s * x + c * y + ty) - ty) == u * u * x,
        (-s) * ((c * x - s * y + tx) - tx) + c * ((s * x + c * y + ty) - ty) == u * u * y,
{
    assert(c * ((c * x - s * y + tx) - tx) + s * ((s * x + c * y + ty) - ty) == u * u * x)
        by (nonlinear_arith)
        requires
            c * c + s * s == u * u;
    assert((-s) * ((c * x - s * y + tx) - tx) + c * ((s * x + c * y + ty) - ty) == u * u * y)
        by (nonlinear_arith)
        requires
            c * c + s * s == u * u;
}

/// The step distance of sample `i`: speed times the discretization step.
pub open spec fn step_dx(vel: Seq<Vec2>, i: int) -> int {
    mul_sat_spec(vel[i].y as int, STEP_FP as int)
}

/// The heading after integrating curvature over the first `i + 1` samples:
/// each sample turns the heading by its curvature times its step distance.
pub open spec fn heading_after(vel: Seq<Vec2>, curv: Seq<Vec2>, i: int) -> int
    decreases i + 1,
{
    if i < 0 {
        0
    } else {
        add_sat_spec(
            heading_after(vel, curv, i - 1),
            mul_sat_spec(curv[i].y as int, step_dx(vel, i)),
        )
    }
}

/// The x coordinate after explicit-Euler integration of the first `i + 1`
/// samples.
pub open spec fn traj_x_after(vel: Seq<Vec2>, curv: Seq<Vec2>, i: int) -> int
    decreases i + 1,
{
    if i < 0 {
        0
    } else {
        add_sat_spec(
            traj_x_after(vel, curv, i - 1),
            mul_sat_spec(cos_fp_spec(heading_after(vel, curv, i)), step_dx(vel, i)),
        )
    }
}

/// The y coordinate after explicit-Euler integration of the first `i + 1`
/// samples.
pub open spec fn traj_y_after(vel: Seq<Vec2>, curv: Seq<Vec2>, i: int) -> int
    decreases i + 1,
{
    if i < 0 {
        0
    } else {
        add_sat_spec(
            traj_y_after(vel, curv, i - 1),
            mul_sat_spec(sin_fp_spec(heading_after(vel, curv, i)), step_dx(vel, i)),
        )
    }
}

/// Heading and both coordinates stay in the saturating range.
pub proof fn lemma_traj_in_range(vel: Seq<Vec2>, curv: Seq<Vec2>, i: int)
    ensures
        in_range(heading_after(vel, curv, i)),
        in_range(traj_x_after(vel, curv, i)),
        in_range(traj_y_after(vel, curv, i)),
    decreases i + 1,
{
    if i >= 0 {
        lemma_traj_in_range(vel, curv, i - 1);
    }
}

/// Integrates heading and position through curvature and speed: the
/// movement-local trajectory, one point per sample.
pub fn build_trajectory(vel: &Vec<Vec2>, curv: &Vec<Vec2>) -> (r: Vec<Vec2>)
    requires
        vel@.len() == curv@.len(),
        forall|i: int| 0 <= i < vel@.len() ==> #[trigger] vec2_in_range(vel@[i]),
        forall|i: int| 0 <= i < curv@.len() ==> #[trigger] vec2_in_range(curv@[i]),
    ensures
        r@.len() == vel@.len(),
        forall|i: int|
            0 <= i < vel@.len() ==> #[trigger] r@[i] == (Vec2 {
                x: traj_x_after(vel@, curv@, i) as i64,
                y: traj_y_after(vel@, curv@, i) as i64,
            }),
{
    let n = vel.len();
    let mut out: Vec<Vec2> = Vec::new();
    let mut heading: i64 = 0;
    let mut px: i64 = 0;
    let mut py: i64 = 0;
    let mut i: usize = 0;
    while i < n
        invariant
            n == vel@.len(),
            vel@.len() == curv@.len(),
            forall|j: int| 0 <= j < vel@.len() ==> #[trigger] vec2_in_range(vel@[j]),
            forall|j: int| 0 <= j < curv@.len() ==> #[trigger] vec2_in_range(curv@[j]),
            i <= n,
            out@.len() == i,
            heading as int == heading_after(vel@, curv@, i as int - 1),
            px as int == traj_x_after(vel@, curv@, i as int - 1),
            py as int == traj_y_after(vel@, curv@, i as int - 1),
            forall|j: int|
                0 <= j < i ==> #[trigger] out@[j] == (Vec2 {
                    x: traj_x_after(vel@, curv@, j) as i64,
                    y: traj_y_after(vel@, curv@, j) as i64,
                }),
        decreases n - i,
    {
        proof {
            lemma_traj_in_range(vel@, curv@, i as int - 1);
            assert(vec2_in_range(vel@[i as int]));
            assert(vec2_in_range(curv@[i as int]));
        }
        let dx = mul_sat(vel[i].y, STEP_FP);
        heading = add_sat(heading, mul_sat(curv[i].y, dx));
        px = add_sat(px, mul_sat(cos_fp(heading), dx));
        py = add_sat(py, mul_sat(sin_fp(heading), dx));
        out.push(Vec2 { x: px, y: py });
        i = i + 1;
    }
    out
}

/// The origin-shift scan: the time of the left edge of the last position
/// window `[x_{i-1}, x_i)` that contains `x_o`, or zero if none does.
pub open spec fn origin_time_spec(pos: Seq<Vec2>, x_o: int, n: int) -> int
    decreases n,
{
    if n <= 1 {
        0
    } else {
        if pos[n - 2].y <= x_o < pos[n - 1].y {
            pos[n - 2].x as int
        } else {
            origin_time_spec(pos, x_o, n - 1)
        }
    }
}

/// The origin-shift scan yields an in-range time whenever the series is in
/// range.
pub proof fn lemma_origin_time_in_range(pos: Seq<Vec2>, x_o: int, n: int)
    requires
        forall|i: int| 0 <= i < pos.len() ==> #[trigger] vec2_in_range(pos[i]),
        n <= pos.len(),
    ensures
        in_range(origin_time_spec(pos, x_o, n)),
    decreases n,
{
    if n > 1 {
        lemma_origin_time_in_range(pos, x_o, n - 1);
        assert(vec2_in_range(pos[n - 2]));
    }
}

/// Finds the time at which the path crosses the longitudinal origin offset
/// `x_o`, scanning consecutive position windows.
pub fn origin_time(pos: &Vec<Vec2>, x_o: i64) -> (r: i64)
    ensures
        r as int == origin_time_spec(pos@, x_o as int, pos@.len() as int),
{
    let n = pos.len();
    let mut t_o: i64 = 0;
    let mut i: usize = 1;
    while i < n
        invariant
            n == pos@.len(),
            1 <= i,
            i <= n || (n <= 1 && i == 1),
            t_o as int == origin_time_spec(pos@, x_o as int, i as int),
        decreases n - i,
    {
        let x0 = pos[i - 1].y;
        let x1 = pos[i].y;
        if x0 <= x_o && x_o < x1 {
            t_o = pos[i - 1].x;
        }
        i = i + 1;
    }
    proof {
        if pos@.len() == 0 {
            assert(origin_time_spec(pos@, x_o as int, 0) == 0);
            assert(origin_time_spec(pos@, x_o as int, 1) == 0);
        }
    }
    t_o
}

} // verus!
