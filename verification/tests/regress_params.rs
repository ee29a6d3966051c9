//! Exact-value tests of the regression formulas and their positive floor.

use intersim::regress::bernoulli;
use intersim::regress::ig_v0_params;
use intersim::regress::lt_clothoid_params;
use intersim::regress::lt_params;
use intersim::regress::ped_v1_params;
use intersim::regress::rt_params;

#[test]
fn lt_outflow_scale_formula() {
    // 0.0772 - 0.00355 * v_out at v_out = 10 m/s
    let p = lt_params(10_000_000, 10_000_000, 90_000_000, 14_000_000, 1_750_000, false);
    assert_eq!(p.c_out_scale, 41_700);
}

#[test]
fn lt_inflow_shape_formula() {
    // 2.09 + 0.256 * 10 - 0.0155 * 90 - 0.168 * 1.75
    let p = lt_params(10_000_000, 10_000_000, 90_000_000, 14_000_000, 1_750_000, false);
    assert_eq!(p.c_in_shape, 2_961_000);
}

#[test]
fn degenerate_scale_is_floored_to_a_micro_unit() {
    // an absurd outflow speed drives the scale regression negative
    let p = lt_params(10_000_000, 900_000_000, 90_000_000, 14_000_000, 1_750_000, false);
    assert_eq!(p.c_out_scale, 1);
}

#[test]
fn large_vehicle_dummy_shifts_the_apex_mean() {
    let small = lt_params(10_000_000, 10_000_000, 90_000_000, 14_000_000, 1_750_000, false);
    let large = lt_params(10_000_000, 10_000_000, 90_000_000, 14_000_000, 1_750_000, true);
    // the flag contributes -0.496 to the apex speed mean
    assert_eq!(small.v_min_mean - large.v_min_mean, 496_000);
}

#[test]
fn lt_clothoid_parameters() {
    // a1 = -1.65 + 0.0404*90 + 0.334*14 + 0.461*1.75 + 0.369*9
    let (a1, a2) = lt_clothoid_params(90_000_000, 14_000_000, 1_750_000, false, 9_000_000);
    assert_eq!(a1, 10_789_750);
    // a2 = 2.33 + 0.335*14 + 1.04*1.75 + 0.268*9 summed the same way
    assert_eq!(a2, 11_252_000);
}

#[test]
fn rt_minimum_radius_shape_uses_smaller_hard_nose() {
    let p1 = rt_params(10_000_000, 90_000_000, 10_000_000, 20_000_000);
    let p2 = rt_params(10_000_000, 90_000_000, 20_000_000, 10_000_000);
    // 0.0282*90 + 0.0807*10 either way
    assert_eq!(p1.r_min_shape, p2.r_min_shape);
    assert_eq!(p1.r_min_shape, 3_345_000);
}

#[test]
fn ped_first_half_speed_formula() {
    // shape: 7.47*1 + 0.720*17 + 4.19*1 + 1.93 on the far side
    let (shape, _) = ped_v1_params(1_000_000, 17_000_000, true, 0);
    assert_eq!(shape, 25_830_000);
}

#[test]
fn ig_contact_speed_formula() {
    // shape: 0.256*2 + 24.1; scale: 0.0379*1 + 0.0218
    let (shape, scale) = ig_v0_params(2_000_000, 1_000_000);
    assert_eq!(shape, 24_612_000);
    assert_eq!(scale, 59_700);
}

#[test]
fn ig_first_half_shift_floors() {
    // -0.000055 * 20000 + 0.777 is negative, so the shift floors to a
    // micro-unit
    let (_, _, shift) = intersim::regress::ig_v1_params(1_000_000, 17_000_000, 0, 20_000_000_000);
    assert_eq!(shift, 1);
    // a small aggregate leaves the affine value intact
    let (_, _, shift) = intersim::regress::ig_v1_params(1_000_000, 17_000_000, 0, 0);
    assert_eq!(shift, 777_000);
}

#[test]
fn bernoulli_threshold() {
    assert!(bernoulli(99_999, 100_000));
    assert!(!bernoulli(100_000, 100_000));
    assert!(!bernoulli(500_000, 100_000));
}
