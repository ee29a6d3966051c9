//! Exact-value tests of the fixed-point core and the circular functions.

use intersim::fixed::add_sat;
use intersim::fixed::cbrt_fp;
use intersim::fixed::clamp;
use intersim::fixed::div_sat;
use intersim::fixed::mul_sat;
use intersim::fixed::sqrt_fp;
use intersim::fixed::sub_sat;
use intersim::fixed::FP_SAT;
use intersim::trig::cos_fp;
use intersim::trig::sin_fp;
use intersim::trig::HALF_PI_FP;
use intersim::trig::PI_FP;
use intersim::trig::TWO_PI_FP;

#[test]
fn mul_exact() {
    assert_eq!(mul_sat(2_000_000, 3_000_000), 6_000_000);
    assert_eq!(mul_sat(-2_000_000, 3_000_000), -6_000_000);
    assert_eq!(mul_sat(-2_000_000, -3_000_000), 6_000_000);
    assert_eq!(mul_sat(1_500_000, 1_500_000), 2_250_000);
}

#[test]
fn mul_truncates_toward_zero() {
    assert_eq!(mul_sat(1, 1), 0);
    assert_eq!(mul_sat(999_999, 1), 0);
    assert_eq!(mul_sat(-999_999, 1), 0);
    assert_eq!(mul_sat(1_999_999, 1), 1);
    assert_eq!(mul_sat(-1_999_999, 1), -1);
}

#[test]
fn div_exact() {
    assert_eq!(div_sat(6_000_000, 3_000_000), 2_000_000);
    assert_eq!(div_sat(1_000_000, 3_000_000), 333_333);
    assert_eq!(div_sat(-1_000_000, 3_000_000), -333_333);
    assert_eq!(div_sat(1_000_000, -3_000_000), -333_333);
    assert_eq!(div_sat(-1_000_000, -3_000_000), 333_333);
}

#[test]
fn div_by_zero_uses_micro_unit() {
    assert_eq!(div_sat(5, 0), 5_000_000);
    assert_eq!(div_sat(-5, 0), -5_000_000);
}

#[test]
fn saturation_bounds() {
    assert_eq!(add_sat(FP_SAT, FP_SAT), FP_SAT);
    assert_eq!(sub_sat(-FP_SAT, FP_SAT), -FP_SAT);
    assert_eq!(mul_sat(FP_SAT, FP_SAT), FP_SAT);
    assert_eq!(mul_sat(FP_SAT, -FP_SAT), -FP_SAT);
}

#[test]
fn cube_roots() {
    assert_eq!(cbrt_fp(8_000_000), 2_000_000);
    assert_eq!(cbrt_fp(-8_000_000), -2_000_000);
    assert_eq!(cbrt_fp(0), 0);
    assert_eq!(cbrt_fp(1_000_000), 1_000_000);
    assert_eq!(cbrt_fp(27_000_000), 3_000_000);
}

#[test]
fn square_roots() {
    assert_eq!(sqrt_fp(4_000_000), 2_000_000);
    assert_eq!(sqrt_fp(0), 0);
    assert_eq!(sqrt_fp(1_000_000), 1_000_000);
    assert_eq!(sqrt_fp(2_000_000), 1_414_213);
}

#[test]
fn clamp_behaviour() {
    assert_eq!(clamp(5, 0, 10), 5);
    assert_eq!(clamp(-5, 0, 10), 0);
    assert_eq!(clamp(15, 0, 10), 10);
}

#[test]
fn trig_reference_points() {
    assert_eq!(cos_fp(0), 1_000_000);
    assert_eq!(sin_fp(0), 0);
    let c = cos_fp(HALF_PI_FP);
    assert!(c.abs() < 2_000, "cos at quarter turn: {c}");
    let s = sin_fp(HALF_PI_FP);
    assert!((s - 1_000_000).abs() < 2_000, "sin at quarter turn: {s}");
    let c = cos_fp(PI_FP);
    assert!((c + 1_000_000).abs() < 2_000, "cos at half turn: {c}");
    let s = sin_fp(-HALF_PI_FP);
    assert!((s + 1_000_000).abs() < 2_000, "sin at negative quarter turn: {s}");
}

#[test]
fn trig_periodic() {
    for x in [0i64, 123_456, 1_000_000, 3_000_000, -2_500_000] {
        assert_eq!(cos_fp(x), cos_fp(x + TWO_PI_FP));
        assert_eq!(sin_fp(x), sin_fp(x + TWO_PI_FP));
    }
}
