//! Clothoid-arc geometry of a turning path.
//!
//! A turn's curvature rises linearly along an entry clothoid, holds the
//! apex curvature `1 / r_min` along a circular arc, and falls linearly along
//! an exit clothoid.  The arc length is what remains of the requested turn
//! angle after both clothoid sweeps; a negative remainder means the drawn
//! clothoid/radius combination cannot achieve the turn and the sample is
//! infeasible.

use vstd::prelude::*;
use crate::fixed::add_sat;
use crate::fixed::add_sat_spec;
use crate::fixed::div_sat;
use crate::fixed::div_sat_spec;
use crate::fixed::in_range;
use crate::fixed::mul_sat;
use crate::fixed::mul_sat_spec;
use crate::fixed::sub_sat;
use crate::fixed::sub_sat_spec;
use crate::profile::Vec2;

verus! {

/// Derived geometry of one turn: apex curvature, clothoid sharpnesses,
/// lengths and sweep angles, and the remaining arc length.
#[derive(Clone, Copy, PartialEq, Eq, Structural, Debug)]
pub struct ClothoidGeom {
    /// Apex curvature `1 / r_min`.
    pub k: i64,
    /// Entry clothoid sharpness `1 / a1^2`.
    pub s1: i64,
    /// Exit clothoid sharpness `1 / a2^2`.
    pub s2: i64,
    /// Entry clothoid length.
    pub l1: i64,
    /// Exit clothoid length.
    pub l2: i64,
    /// Entry clothoid sweep angle.
    pub angle1: i64,
    /// Exit clothoid sweep angle.
    pub angle2: i64,
    /// Sweep angle left for the circular arc.
    pub angle_arc: i64,
    /// Arc length; negative exactly when the turn is infeasible.
    pub l_arc: i64,
}

/// Sharpness of a clothoid with parameter `a`: `1 / a^2`.
pub open spec fn sharpness_spec(a: int) -> int {
    div_sat_spec(crate::FP_ONE as int, mul_sat_spec(a, a))
}

/// Apex curvature of a turn with minimum radius `r`: `1 / r`.
pub open spec fn curvature_spec(r: int) -> int {
    div_sat_spec(crate::FP_ONE as int, r)
}

/// Length of a clothoid reaching curvature `k` at sharpness `s`: `k / s`.
pub open spec fn clothoid_len_spec(k: int, s: int) -> int {
    div_sat_spec(k, s)
}

/// Sweep angle of a clothoid of length `l` and sharpness `s`: `s l^2 / 2`.
pub open spec fn clothoid_angle_spec(s: int, l: int) -> int {
    mul_sat_spec(mul_sat_spec(500_000, s), mul_sat_spec(l, l))
}

/// The full derived geometry of a turn through `theta` radians with minimum
/// radius `r_min` and clothoid parameters `a1`, `a2`.
#[verifier::opaque]
pub open spec fn clothoid_geom_spec(r_min: int, a1: int, a2: int, theta: int) -> ClothoidGeom {
    let k = curvature_spec(r_min);
    let s1 = sharpness_spec(a1);
    let s2 = sharpness_spec(a2);
    let l1 = clothoid_len_spec(k, s1);
    let l2 = clothoid_len_spec(k, s2);
    let angle1 = clothoid_angle_spec(s1, l1);
    let angle2 = clothoid_angle_spec(s2, l2);
    let angle_arc = sub_sat_spec(theta, add_sat_spec(angle1, angle2));
    let l_arc = div_sat_spec(angle_arc, k);
    ClothoidGeom {
        k: k as i64,
        s1: s1 as i64,
        s2: s2 as i64,
        l1: l1 as i64,
        l2: l2 as i64,
        angle1: angle1 as i64,
        angle2: angle2 as i64,
        angle_arc: angle_arc as i64,
        l_arc: l_arc as i64,
    }
}

/// Computes the derived geometry of a turn.  A zero radius or zero clothoid
/// parameter is carried through the division rule of
/// [`crate::fixed::div_sat_spec`] (divisor treated as one micro-unit).
pub fn clothoid_geom(r_min: i64, a1: i64, a2: i64, theta: i64) -> (g: ClothoidGeom)
    requires
        in_range(r_min as int),
        in_range(a1 as int),
        in_range(a2 as int),
        in_range(theta as int),
    ensures
        g == clothoid_geom_spec(r_min as int, a1 as int, a2 as int, theta as int),
        geom_in_range(g),
{
    proof {
        reveal(crate::clothoid::clothoid_geom_spec);
    }
    let k = div_sat(crate::FP_ONE, r_min);
    let s1 = div_sat(crate::FP_ONE, mul_sat(a1, a1));
    let s2 = div_sat(crate::FP_ONE, mul_sat(a2, a2));
    let l1 = div_sat(k, s1);
    let l2 = div_sat(k, s2);
    let angle1 = mul_sat(mul_sat(500_000, s1), mul_sat(l1, l1));
    let angle2 = mul_sat(mul_sat(500_000, s2), mul_sat(l2, l2));
    let angle_arc = sub_sat(theta, add_sat(angle1, angle2));
    let l_arc = div_sat(angle_arc, k);
    ClothoidGeom { k, s1, s2, l1, l2, angle1, angle2, angle_arc, l_arc }
}

/// All fields of a derived geometry are in the saturating range.
pub open spec fn geom_in_range(g: ClothoidGeom) -> bool {
    &&& in_range(g.k as int)
    &&& in_range(g.s1 as int)
    &&& in_range(g.s2 as int)
    &&& in_range(g.l1 as int)
    &&& in_range(g.l2 as int)
    &&& in_range(g.angle1 as int)
    &&& in_range(g.angle2 as int)
    &&& in_range(g.angle_arc as int)
    &&& in_range(g.l_arc as int)
}

/// The signed curvature at longitudinal position `x` of a turn anchored at
/// `x0`: rising clothoid, constant arc, falling clothoid, zero elsewhere.
/// Left turns curve positively, right turns negatively.
pub open spec fn curvature_at_spec(g: ClothoidGeom, x0: int, left: bool, x: int) -> int {
    let x1 = add_sat_spec(x0, g.l1 as int);
    let x2 = add_sat_spec(x1, g.l_arc as int);
    let x3 = add_sat_spec(x2, g.l2 as int);
    let unsigned = if x0 <= x < x1 {
        mul_sat_spec(g.s1 as int, sub_sat_spec(x, x0))
    } else if x1 <= x < x2 {
        g.k as int
    } else if x2 <= x < x3 {
        sub_sat_spec(g.k as int, mul_sat_spec(g.s2 as int, sub_sat_spec(x, x2)))
    } else {
        0
    };
    if left {
        unsigned
    } else {
        -unsigned
    }
}

/// Builds the curvature-versus-position series: each entry pairs a position
/// sample's longitudinal position with the signed band curvature there.
pub fn build_curvature(pos: &Vec<Vec2>, g: &ClothoidGeom, x0: i64, left: bool) -> (r: Vec<Vec2>)
    requires
        geom_in_range(*g),
        in_range(x0 as int),
        forall|i: int| 0 <= i < pos@.len() ==> #[trigger] crate::profile::vec2_in_range(pos@[i]),
    ensures
        r@.len() == pos@.len(),
        forall|i: int|
            0 <= i < pos@.len() ==> #[trigger] r@[i] == (Vec2 {
                x: pos@[i].y,
                y: curvature_at_spec(*g, x0 as int, left, pos@[i].y as int) as i64,
            }),
{
    let x1 = add_sat(x0, g.l1);
    let x2 = add_sat(x1, g.l_arc);
    let x3 = add_sat(x2, g.l2);
    let n = pos.len();
    let mut out: Vec<Vec2> = Vec::new();
    let mut i: usize = 0;
    while i < n
        invariant
            n == pos@.len(),
            geom_in_range(*g),
            in_range(x0 as int),
            forall|j: int|
                0 <= j < pos@.len() ==> #[trigger] crate::profile::vec2_in_range(pos@[j]),
            x1 as int == add_sat_spec(x0 as int, g.l1 as int),
            x2 as int == add_sat_spec(x1 as int, g.l_arc as int),
            x3 as int == add_sat_spec(x2 as int, g.l2 as int),
            in_range(x1 as int) && in_range(x2 as int) && in_range(x3 as int),
            i <= n,
            out@.len() == i,
            forall|j: int|
                0 <= j < i ==> #[trigger] out@[j] == (Vec2 {
                    x: pos@[j].y,
                    y: curvature_at_spec(*g, x0 as int, left, pos@[j].y as int) as i64,
                }),
        decreases n - i,
    {
        let x = pos[i].y;
        let unsigned: i64 = if x0 <= x && x < x1 {
            mul_sat(g.s1, sub_sat(x, x0))
        } else if x1 <= x && x < x2 {
            g.k
        } else if x2 <= x && x < x3 {
            sub_sat(g.k, mul_sat(g.s2, sub_sat(x, x2)))
        } else {
            0
        };
        let v: i64 = if left {
            unsigned
        } else {
            -unsigned
        };
        out.push(Vec2 { x, y: v });
        i = i + 1;
    }
    out
}

/// The curvature series sweeps exactly the requested turn angle (exact
/// model).  With the clothoid defining equations — length times sharpness
/// equals the apex curvature, doubled sweep angle equals sharpness times
/// squared length, and arc length times curvature equals the remaining angle
/// — the trapezoidal integrals of the rising band, the constant band and the
/// falling band sum to the full turn angle `theta`:
/// `clothoid1_angle + arc_angle + clothoid2_angle == theta`.
pub proof fn lemma_curvature_total_turn(
    k: int,
    s1: int,
    s2: int,
    l1: int,
    l2: int,
    angle1: int,
    angle2: int,
    l_arc: int,
    theta: int,
)
    requires
        l1 * s1 == k,
        l2 * s2 == k,
        2 * angle1 == s1 * l1 * l1,
        2 * angle2 == s2 * l2 * l2,
        l_arc * k == theta - angle1 - angle2,
    ensures
        angle1 + l_arc * k + angle2 == theta,
        (0 + k) * l1 + 2 * (k * l_arc) + (k + 0) * l2 == 2 * theta,
{
    assert((0 + k) * l1 + 2 * (k * l_arc) + (k + 0) * l2 == 2 * theta) by (nonlinear_arith)
        requires
            l1 * s1 == k,
            l2 * s2 == k,
            2 * angle1 == s1 * l1 * l1,
            2 * angle2 == s2 * l2 * l2,
            l_arc * k == theta - angle1 - angle2;
}

/// The infeasibility test is exact: the arc length is negative precisely
/// when the requested turn angle falls short of the combined clothoid sweep
/// (exact model, positive apex curvature).
pub proof fn lemma_infeasible_iff_angle_short(
    k: int,
    angle1: int,
    angle2: int,
    l_arc: int,
    theta: int,
)
    requires
        k > 0,
        l_arc * k == theta - angle1 - angle2,
    ensures
        l_arc < 0 <==> theta < angle1 + angle2,
{
    assert(l_arc < 0 <==> theta < angle1 + angle2) by (nonlinear_arith)
        requires
            k > 0,
            l_arc * k == theta - angle1 - angle2;
}

} // verus!
