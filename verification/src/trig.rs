//! Fixed-point sine and cosine.
//!
//! The heading integrator and the frame transforms need the two circular
//! functions.  They are computed by range reduction into a half-period
//! followed by a Taylor polynomial; the polynomial itself is the
//! specification, so every caller's contract is exact to the unit.  How
//! close the polynomial comes to the mathematical circle functions is a
//! numerical-accuracy question outside these contracts, exactly as binary
//! floating point would be.

use vstd::prelude::*;
use crate::fixed::add_sat_spec;
use crate::fixed::div_sat;
use crate::fixed::div_sat_spec;
use crate::fixed::in_range;
use crate::fixed::mul_sat;
use crate::fixed::mul_sat_spec;
use crate::fixed::sub_sat;
use crate::fixed::sub_sat_spec;

verus! {

/// Half turn in fixed-point radians.
pub const PI_FP: i64 = 3_141_593;

/// Full turn in fixed-point radians.
pub const TWO_PI_FP: i64 = 6_283_185;

/// Quarter turn in fixed-point radians.
pub const HALF_PI_FP: i64 = 1_570_796;

/// The argument folded into `[-PI_FP, PI_FP]`: remainder modulo a full turn
/// (truncated toward zero), then shifted by a full turn when beyond a half
/// turn in either direction.
pub open spec fn reduce_spec(x: int) -> int {
    let r0 = if x >= 0 {
        x % (TWO_PI_FP as int)
    } else {
        -((-x) % (TWO_PI_FP as int))
    };
    if r0 > PI_FP as int {
        r0 - TWO_PI_FP as int
    } else if r0 < -(PI_FP as int) {
        r0 + TWO_PI_FP as int
    } else {
        r0
    }
}

/// Degree-six Taylor polynomial of cosine on the reduced quarter turn.
pub open spec fn cos_poly_spec(x: int) -> int {
    let x2 = mul_sat_spec(x, x);
    let t2 = mul_sat_spec(x2, 500_000);
    let x4 = mul_sat_spec(x2, x2);
    let t4 = div_sat_spec(x4, 24_000_000);
    let x6 = mul_sat_spec(x4, x2);
    let t6 = div_sat_spec(x6, 720_000_000);
    sub_sat_spec(add_sat_spec(sub_sat_spec(1_000_000, t2), t4), t6)
}

/// Degree-seven Taylor polynomial of sine on the reduced quarter turn.
pub open spec fn sin_poly_spec(x: int) -> int {
    let x2 = mul_sat_spec(x, x);
    let x3 = mul_sat_spec(x2, x);
    let t3 = div_sat_spec(x3, 6_000_000);
    let x5 = mul_sat_spec(x3, x2);
    let t5 = div_sat_spec(x5, 120_000_000);
    let x7 = mul_sat_spec(x5, x2);
    let t7 = div_sat_spec(x7, 5_040_000_000);
    sub_sat_spec(add_sat_spec(sub_sat_spec(x, t3), t5), t7)
}

/// Fixed-point cosine: reduction, even symmetry, and a quarter-turn fold.
#[verifier::opaque]
pub open spec fn cos_fp_spec(x: int) -> int {
    let r = reduce_spec(x);
    let m = if r >= 0 { r } else { -r };
    if m <= HALF_PI_FP as int {
        cos_poly_spec(m)
    } else {
        -cos_poly_spec((PI_FP as int) - m)
    }
}

/// Fixed-point sine: reduction, odd symmetry, and a quarter-turn fold.
#[verifier::opaque]
pub open spec fn sin_fp_spec(x: int) -> int {
    let r = reduce_spec(x);
    let m = if r >= 0 { r } else { -r };
    let s = if m <= HALF_PI_FP as int {
        sin_poly_spec(m)
    } else {
        sin_poly_spec((PI_FP as int) - m)
    };
    if r >= 0 {
        s
    } else {
        -s
    }
}

/// Folds the argument into `[-PI_FP, PI_FP]`.
fn reduce(x: i64) -> (r: i64)
    requires
        in_range(x as int),
    ensures
        r as int == reduce_spec(x as int),
        -(PI_FP as int) <= r as int <= PI_FP as int,
{
    let m: u64 = if x >= 0 {
        x as u64
    } else {
        (-(x as i128)) as u64
    };
    let rm: u64 = m % (TWO_PI_FP as u64);
    let r0: i64 = if x >= 0 {
        rm as i64
    } else {
        -(rm as i64)
    };
    if r0 > PI_FP {
        r0 - TWO_PI_FP
    } else if r0 < -PI_FP {
        r0 + TWO_PI_FP
    } else {
        r0
    }
}

/// Executable mirror of [`cos_poly_spec`].
fn cos_poly(x: i64) -> (r: i64)
    requires
        in_range(x as int),
    ensures
        r as int == cos_poly_spec(x as int),
        in_range(r as int),
{
    let x2 = mul_sat(x, x);
    let t2 = mul_sat(x2, 500_000);
    let x4 = mul_sat(x2, x2);
    let t4 = div_sat(x4, 24_000_000);
    let x6 = mul_sat(x4, x2);
    let t6 = div_sat(x6, 720_000_000);
    sub_sat(crate::fixed::add_sat(sub_sat(1_000_000, t2), t4), t6)
}

/// Executable mirror of [`sin_poly_spec`].
fn sin_poly(x: i64) -> (r: i64)
    requires
        in_range(x as int),
    ensures
        r as int == sin_poly_spec(x as int),
        in_range(r as int),
{
    let x2 = mul_sat(x, x);
    let x3 = mul_sat(x2, x);
    let t3 = div_sat(x3, 6_000_000);
    let x5 = mul_sat(x3, x2);
    let t5 = div_sat(x5, 120_000_000);
    let x7 = mul_sat(x5, x2);
    let t7 = div_sat(x7, 5_040_000_000);
    sub_sat(crate::fixed::add_sat(sub_sat(x, t3), t5), t7)
}

/// Fixed-point cosine of an in-range angle.
pub fn cos_fp(x: i64) -> (r: i64)
    requires
        in_range(x as int),
    ensures
        r as int == cos_fp_spec(x as int),
        in_range(r as int),
{
    proof {
        reveal(crate::trig::cos_fp_spec);
    }
    let red = reduce(x);
    let m: i64 = if red >= 0 {
        red
    } else {
        -red
    };
    if m <= HALF_PI_FP {
        cos_poly(m)
    } else {
        -cos_poly(PI_FP - m)
    }
}

/// Fixed-point sine of an in-range angle.
pub fn sin_fp(x: i64) -> (r: i64)
    requires
        in_range(x as int),
    ensures
        r as int == sin_fp_spec(x as int),
        in_range(r as int),
{
    proof {
        reveal(crate::trig::sin_fp_spec);
    }
    let red = reduce(x);
    let m: i64 = if red >= 0 {
        red
    } else {
        -red
    };
    let s: i64 = if m <= HALF_PI_FP {
        sin_poly(m)
    } else {
        sin_poly(PI_FP - m)
    };
    if red >= 0 {
        s
    } else {
        -s
    }
}

} // verus!
