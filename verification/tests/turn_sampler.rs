//! Tests of the turning-vehicle sampler: exact cube-root half durations,
//! velocity continuity at the junction, infeasibility, and the series
//! lengths.

use intersim::dir::Dir;
use intersim::sampler::compute_lt_veh;
use intersim::sampler::compute_rt_veh;
use intersim::sampler::VehDraws;
use intersim::settings::Settings;
use intersim::settings::VehFlow;

fn lt_flow() -> VehFlow {
    VehFlow {
        src_dir: Dir::NxPy,
        src_lane: 3,
        dst_dir: Dir::PyNx,
        dst_lane: 3,
        density: 100_000,
        v_in_mean: 10_000_000,
        v_in_stdv: 1_000_000,
        v_out_mean: 10_000_000,
        v_out_stdv: 1_000_000,
        padding_out_mean: 1_750_000,
        padding_out_stdv: 100_000,
        large_prob: 100_000,
    }
}

fn rt_flow() -> VehFlow {
    VehFlow {
        src_dir: Dir::NxPy,
        src_lane: 2,
        dst_dir: Dir::NyPx,
        dst_lane: 1,
        density: 100_000,
        v_in_mean: 10_000_000,
        v_in_stdv: 1_000_000,
        v_out_mean: 10_000_000,
        v_out_stdv: 1_000_000,
        padding_out_mean: 1_750_000,
        padding_out_stdv: 100_000,
        large_prob: 100_000,
    }
}

fn nice_draws() -> VehDraws {
    VehDraws {
        v_in: 10_000_000,
        v_out: 10_000_000,
        padding: 1_750_000,
        large: false,
        c_in: 2_000_000,
        c_out: 2_000_000,
        v_min: 9_000_000,
        x_min: 5_000_000,
        r_min: 20_000_000,
    }
}

#[test]
fn left_turn_half_durations_are_cube_roots() {
    let s = Settings::default();
    let out = compute_lt_veh(&s, &lt_flow(), &nice_draws()).expect("feasible turn");
    // (2 / 2.0) * (10 - 9) = 1.0, whose cube root is 1.0 s; both halves
    assert_eq!(out.t_min, 1_000_000);
    assert_eq!(out.t_exit, 2_000_000);
    // one sample each 0.01 s on [0, 1] twice over
    assert_eq!(out.max_step, 202);
    assert_eq!(out.velocity_series.len(), 202);
    assert_eq!(out.position_series.len(), 202);
    assert_eq!(out.curvature_series.len(), 202);
    assert_eq!(out.trajectory_series.len(), 202);
    assert_eq!(out.c_in, 2_000_000);
    assert_eq!(out.v_min, 9_000_000);
}

#[test]
fn velocity_series_continuous_at_junction() {
    let s = Settings::default();
    let out = compute_lt_veh(&s, &lt_flow(), &nice_draws()).expect("feasible turn");
    // inflow starts at the inflow speed
    assert_eq!(out.velocity_series[0].y, 10_000_000);
    // the analytic inflow value at the apex time is the apex speed exactly
    assert_eq!(out.velocity_series[100].y, 9_000_000);
    // and the outflow half starts at that same apex speed
    assert_eq!(out.velocity_series[101].y, 9_000_000);
    // the junction sample is shared: both halves emit the apex time
    assert_eq!(out.velocity_series[100].x, out.velocity_series[101].x);
    assert!(out.velocity_series[99].x < out.velocity_series[100].x);
    assert!(out.velocity_series[101].x < out.velocity_series[102].x);
}

#[test]
fn infeasible_turn_angle_returns_no_agent() {
    // a one-degree turn cannot absorb both clothoid sweeps
    let mut s = Settings::default();
    s.angle = 1_000_000;
    let r = compute_lt_veh(&s, &lt_flow(), &nice_draws());
    assert!(r.is_none());
}

#[test]
fn right_turn_succeeds_on_default_geometry() {
    let s = Settings::default();
    let out = compute_rt_veh(&s, &rt_flow(), &nice_draws()).expect("feasible turn");
    assert_eq!(out.t_min, 1_000_000);
    assert!(out.max_step > 0);
    // right turns sweep negative curvature in the constant band
    let mid = out.curvature_series[out.curvature_series.len() / 2].y;
    assert!(mid <= 0, "right-turn curvature sign: {mid}");
}

#[test]
fn curvature_series_is_banded() {
    let s = Settings::default();
    let out = compute_lt_veh(&s, &lt_flow(), &nice_draws()).expect("feasible turn");
    // every curvature sample is nonnegative for a left turn and bounded by
    // the apex curvature 1 / r_min = 0.05
    for p in &out.curvature_series {
        assert!(p.y >= 0);
        assert!(p.y <= 50_000);
    }
}

#[test]
fn draws_are_clamped_not_rejected() {
    let s = Settings::default();
    let mut d = nice_draws();
    d.x_min = i64::MAX;
    // saturating clamp keeps the sampler total
    let r = compute_lt_veh(&s, &lt_flow(), &d);
    assert!(r.is_some());
}

#[test]
fn curvature_integrates_to_the_turn_angle() {
    // trapezoidal integral of curvature over position recovers the turn
    // angle (here 90 degrees), within discretization tolerance; the gentle
    // steepness draws make the sampled path long enough to sweep all three
    // bands
    let s = Settings::default();
    let mut d = nice_draws();
    d.c_in = 100_000;
    d.c_out = 100_000;
    d.x_min = 20_000_000;
    let out = compute_lt_veh(&s, &lt_flow(), &d).expect("feasible turn");
    let mut total = 0.0f64;
    for w in out.curvature_series.windows(2) {
        let dx = (w[1].x - w[0].x) as f64 / 1_000_000.0;
        let k0 = w[0].y as f64 / 1_000_000.0;
        let k1 = w[1].y as f64 / 1_000_000.0;
        total += dx * (k0 + k1) * 0.5;
    }
    let theta = std::f64::consts::FRAC_PI_2;
    assert!(
        (total - theta).abs() < 0.08,
        "integrated turn {total} rad, requested {theta} rad"
    );
}
