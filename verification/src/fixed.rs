//! Fixed-point arithmetic on `i64` values scaled by [`crate::FP_ONE`].
//!
//! All rounding is truncation toward zero, stated exactly through
//! [`div_trunc`], so callers' contracts can pin results down to the unit.

use vstd::prelude::*;

verus! {

/// Truncating division (toward zero) of `a` by a positive divisor `d`.
///
/// This matches Rust's `/` on signed integers, while Verus's spec-level `/`
/// is Euclidean; contracts in this crate speak in terms of `div_trunc`.
pub open spec fn div_trunc(a: int, d: int) -> int
    recommends
        d > 0,
{
    if a >= 0 {
        a / d
    } else {
        -((-a) / d)
    }
}

/// The mathematical product of two fixed-point numbers, rescaled and
/// truncated toward zero.
pub open spec fn fp_mul_spec(a: int, b: int) -> int {
    div_trunc(a * b, crate::FP_ONE as int)
}

/// The mathematical quotient of two fixed-point numbers, rescaled and
/// truncated toward zero.  Only meaningful for `b != 0`.
pub open spec fn fp_div_spec(a: int, b: int) -> int {
    if b >= 0 {
        div_trunc(a * (crate::FP_ONE as int), b)
    } else {
        div_trunc(-(a * (crate::FP_ONE as int)), -b)
    }
}

/// Magnitude of an `i64` as a `u128`.
fn mag_u128(a: i64) -> (r: u128)
    ensures
        r == if a >= 0 { a as int } else { -(a as int) },
{
    if a >= 0 {
        a as u128
    } else {
        (-(a as i128)) as u128
    }
}

/// Saturating clamp of a fixed-point value into `[lo, hi]`.
pub fn clamp(x: i64, lo: i64, hi: i64) -> (r: i64)
    requires
        lo <= hi,
    ensures
        r == clamp_spec(x as int, lo as int, hi as int),
{
    if x < lo {
        lo
    } else if x > hi {
        hi
    } else {
        x
    }
}

/// `x` clamped into `[lo, hi]`.
pub open spec fn clamp_spec(x: int, lo: int, hi: int) -> int {
    if x < lo {
        lo
    } else if x > hi {
        hi
    } else {
        x
    }
}

/// Saturation bound of the kernel's fixed-point range: two quintillion
/// micro-units, i.e. two million million in carried units.  Physical values
/// in this simulator are many orders of magnitude below the bound, so
/// saturation never fires in any sane regime; it exists so that every
/// arithmetic step is total and exactly specified.
pub const FP_SAT: i64 = 2_000_000_000_000_000_000;

/// A value inside the saturating range.
pub open spec fn in_range(x: int) -> bool {
    -(FP_SAT as int) <= x <= FP_SAT as int
}

/// `x` clamped into the saturating range.
pub open spec fn sat_spec(x: int) -> int {
    clamp_spec(x, -(FP_SAT as int), FP_SAT as int)
}

/// Saturating fixed-point addition.
pub open spec fn add_sat_spec(a: int, b: int) -> int {
    sat_spec(a + b)
}

/// Saturating fixed-point subtraction.
pub open spec fn sub_sat_spec(a: int, b: int) -> int {
    sat_spec(a - b)
}

/// Saturating fixed-point multiplication.
pub open spec fn mul_sat_spec(a: int, b: int) -> int {
    sat_spec(fp_mul_spec(a, b))
}

/// Saturating fixed-point division (zero divisor clamped to the smallest
/// positive representable value, one micro-unit).
pub open spec fn div_sat_spec(a: int, b: int) -> int {
    if b == 0 {
        sat_spec(a * (crate::FP_ONE as int))
    } else {
        sat_spec(fp_div_spec(a, b))
    }
}

/// Saturating addition of two in-range fixed-point values.
pub fn add_sat(a: i64, b: i64) -> (r: i64)
    requires
        in_range(a as int),
        in_range(b as int),
    ensures
        r as int == add_sat_spec(a as int, b as int),
        in_range(r as int),
{
    let s: i64 = a + b;
    clamp(s, -FP_SAT, FP_SAT)
}

/// Saturating subtraction of two in-range fixed-point values.
pub fn sub_sat(a: i64, b: i64) -> (r: i64)
    requires
        in_range(a as int),
        in_range(b as int),
    ensures
        r as int == sub_sat_spec(a as int, b as int),
        in_range(r as int),
{
    let s: i64 = a - b;
    clamp(s, -FP_SAT, FP_SAT)
}

/// Saturating fixed-point multiplication of two in-range values.
pub fn mul_sat(a: i64, b: i64) -> (r: i64)
    requires
        in_range(a as int),
        in_range(b as int),
    ensures
        r as int == mul_sat_spec(a as int, b as int),
        in_range(r as int),
{
    let am = mag_u128(a);
    let bm = mag_u128(b);
    proof {
        assert(am * bm <= 0x8000_0000_0000_0000 * 0x8000_0000_0000_0000) by (nonlinear_arith)
            requires
                am <= 0x8000_0000_0000_0000u128,
                bm <= 0x8000_0000_0000_0000u128;
    }
    let q: u128 = (am * bm) / 1_000_000u128;
    let neg = (a < 0) != (b < 0);
    proof {
        let p = (a as int) * (b as int);
        assert(am * bm == if p >= 0 { p } else { -p }) by (nonlinear_arith)
            requires
                am == if a >= 0 { a as int } else { -(a as int) },
                bm == if b >= 0 { b as int } else { -(b as int) },
                p == (a as int) * (b as int);
        assert(q == (if p >= 0 { p } else { -p }) / 1_000_000);
        if neg {
            assert(p <= 0) by (nonlinear_arith)
                requires
                    p == (a as int) * (b as int),
                    (a < 0) != (b < 0),
            ;
        } else {
            assert(p >= 0) by (nonlinear_arith)
                requires
                    p == (a as int) * (b as int),
                    !((a < 0) != (b < 0)),
            ;
        }
    }
    let qc: u128 = if q > FP_SAT as u128 {
        FP_SAT as u128
    } else {
        q
    };
    if neg {
        (-(qc as i128)) as i64
    } else {
        qc as i64
    }
}

/// Saturating fixed-point division of two in-range values; a zero divisor is
/// treated as one micro-unit.
pub fn div_sat(a: i64, b: i64) -> (r: i64)
    requires
        in_range(a as int),
        in_range(b as int),
    ensures
        r as int == div_sat_spec(a as int, b as int),
        in_range(r as int),
{
    let am = mag_u128(a) * 1_000_000u128;
    let bm = if b == 0 {
        1u128
    } else {
        mag_u128(b)
    };
    let q: u128 = am / bm;
    let neg = (a < 0) != (b < 0);
    proof {
        let n = (a as int) * (crate::FP_ONE as int);
        assert(am == if n >= 0 { n } else { -n }) by (nonlinear_arith)
            requires
                am == (if a >= 0 { a as int } else { -(a as int) }) * 1_000_000,
                n == (a as int) * 1_000_000;
        let bi = if b == 0 { 1int } else if b >= 0 { b as int } else { -(b as int) };
        assert(q == (if n >= 0 { n } else { -n }) / bi);
        if b == 0 {
            assert((if n >= 0 { n } else { -n }) / 1 == if n >= 0 { n } else { -n });
            assert(div_sat_spec(a as int, b as int) == sat_spec(if neg { -(q as int) } else { q as int }));
        } else {
            assert(div_sat_spec(a as int, b as int) == sat_spec(if neg { -(q as int) } else { q as int }));
        }
    }
    let qc: u128 = if q > FP_SAT as u128 {
        FP_SAT as u128
    } else {
        q
    };
    if neg {
        (-(qc as i128)) as i64
    } else {
        qc as i64
    }
}

/// Floor cube root of a nonnegative 128-bit value below `2^102`.
fn cbrt_u128(m: u128) -> (r: u128)
    requires
        m < 0x40_0000_0000_0000_0000_0000_0000,
    ensures
        r * r * r <= m < (r + 1) * (r + 1) * (r + 1),
        r < 0x4_0000_0000,
{
    let mut lo: u128 = 0;
    let mut hi: u128 = 0x4_0000_0000;
    proof {
        assert(0x4_0000_0000u128 * 0x4_0000_0000 * 0x4_0000_0000
            == 0x40_0000_0000_0000_0000_0000_0000) by (nonlinear_arith);
    }
    while lo + 1 < hi
        invariant
            lo < hi <= 0x4_0000_0000,
            lo * lo * lo <= m,
            m < hi * hi * hi,
        decreases hi - lo,
    {
        let mid: u128 = lo + (hi - lo) / 2;
        proof {
            assert(mid * mid <= 0x4_0000_0000u128 * 0x4_0000_0000 && mid * mid * mid
                <= 0x4_0000_0000u128 * 0x4_0000_0000 * 0x4_0000_0000) by (nonlinear_arith)
                requires
                    0 < mid <= 0x4_0000_0000u128;
            assert(0x4_0000_0000u128 * 0x4_0000_0000 * 0x4_0000_0000
                == 0x40_0000_0000_0000_0000_0000_0000) by (nonlinear_arith);
        }
        let cube: u128 = mid * mid * mid;
        if cube <= m {
            lo = mid;
        } else {
            hi = mid;
        }
    }
    lo
}

/// Floor square root of a nonnegative 128-bit value below `2^82`.
fn sqrt_u128(m: u128) -> (r: u128)
    requires
        m < 0x4_0000_0000_0000_0000_0000,
    ensures
        r * r <= m < (r + 1) * (r + 1),
        r < 0x200_0000_0000,
{
    let mut lo: u128 = 0;
    let mut hi: u128 = 0x200_0000_0000;
    proof {
        assert(0x200_0000_0000u128 * 0x200_0000_0000 == 0x4_0000_0000_0000_0000_0000)
            by (nonlinear_arith);
    }
    while lo + 1 < hi
        invariant
            lo < hi <= 0x200_0000_0000,
            lo * lo <= m,
            m < hi * hi,
        decreases hi - lo,
    {
        let mid: u128 = lo + (hi - lo) / 2;
        proof {
            assert(mid * mid <= 0x200_0000_0000u128 * 0x200_0000_0000) by (nonlinear_arith)
                requires
                    0 < mid <= 0x200_0000_0000u128;
        }
        let sq: u128 = mid * mid;
        if sq <= m {
            lo = mid;
        } else {
            hi = mid;
        }
    }
    lo
}

/// Whether `r` is the fixed-point cube root, rounded toward zero, of the
/// fixed-point value `x`: the cube of the scaled-up magnitude of `r` brackets
/// the magnitude of `x` rescaled to cubed units, and signs agree.
pub open spec fn is_cbrt_fp(x: int, r: int) -> bool {
    let m = if x >= 0 { x } else { -x } * 1_000_000_000_000;
    let rm = if x >= 0 { r } else { -r };
    &&& (x >= 0 <==> r >= 0) || r == 0
    &&& rm >= 0
    &&& rm * rm * rm <= m < (rm + 1) * (rm + 1) * (rm + 1)
}

/// Fixed-point cube root, rounded toward zero, of an in-range value.  Odd in
/// its argument.
pub fn cbrt_fp(x: i64) -> (r: i64)
    requires
        in_range(x as int),
    ensures
        is_cbrt_fp(x as int, r as int),
        in_range(r as int),
        x >= 0 ==> r >= 0,
        x < 0 ==> r <= 0,
{
    let xm = mag_u128(x);
    let m: u128 = xm * 1_000_000_000_000u128;
    proof {
        assert((FP_SAT as u128) * 1_000_000_000_000 < 0x40_0000_0000_0000_0000_0000_0000)
            by (nonlinear_arith);
        assert(xm * 1_000_000_000_000 <= (FP_SAT as u128) * 1_000_000_000_000)
            by (nonlinear_arith)
            requires
                xm <= FP_SAT as u128;
    }
    let c = cbrt_u128(m);
    if x >= 0 {
        c as i64
    } else {
        (-(c as i128)) as i64
    }
}

/// Whether `r` is the fixed-point square root, rounded down, of the
/// nonnegative fixed-point value `x`.
pub open spec fn is_sqrt_fp(x: int, r: int) -> bool {
    let m = x * 1_000_000;
    &&& r >= 0
    &&& r * r <= m < (r + 1) * (r + 1)
}

/// Fixed-point square root, rounded down, of a nonnegative in-range value.
pub fn sqrt_fp(x: i64) -> (r: i64)
    requires
        0 <= x,
        in_range(x as int),
    ensures
        is_sqrt_fp(x as int, r as int),
        in_range(r as int),
{
    let m: u128 = (x as u128) * 1_000_000u128;
    proof {
        assert((FP_SAT as u128) * 1_000_000 < 0x4_0000_0000_0000_0000_0000) by (nonlinear_arith);
        assert((x as u128) * 1_000_000 <= (FP_SAT as u128) * 1_000_000) by (nonlinear_arith)
            requires
                x as u128 <= FP_SAT as u128;
    }
    let s = sqrt_u128(m);
    s as i64
}

} // verus!
