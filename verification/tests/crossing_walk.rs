//! Tests of the crossing sampler: waypoint clamping, path placement, and
//! segment lengths; and the frame round trip on an exact rotation.

use intersim::crossing::compute_ig_ped;
use intersim::crossing::compute_ped;
use intersim::crossing::PedDraws;
use intersim::dir::Dir;
use intersim::path::iso_apply;
use intersim::path::iso_unapply;
use intersim::path::Iso;
use intersim::path::Rot;
use intersim::profile::Vec2;
use intersim::settings::PedFlow;
use intersim::settings::Settings;

fn flow() -> PedFlow {
    PedFlow {
        src: Dir::NxPy,
        dst: Dir::NxNy,
        density: 100_000,
        v_in_mean: 1_000_000,
        v_in_stdv: 100_000,
        x_in_mean: 0,
        x_in_stdv: 100_000,
        d_in_mean: 0,
        d_in_stdv: 100_000,
        diagonal_prob: 100_000,
    }
}

fn straight_draws() -> PedDraws {
    PedDraws {
        v_init: 1_000_000,
        x_init: 0,
        diagonal: false,
        v_1: 1_000_000,
        v_2: 1_000_000,
        x_1: 0,
        x_2: 0,
        x_3: 9_000_000,
    }
}

#[test]
fn crossing_always_succeeds() {
    let s = Settings::default();
    assert!(compute_ped(&s, &flow(), &straight_draws()).is_some());
    assert!(compute_ig_ped(&s, &flow(), &straight_draws()).is_some());
}

#[test]
fn waypoints_clamp_into_the_crosswalk_band() {
    let s = Settings::default();
    let out = compute_ped(&s, &flow(), &straight_draws()).unwrap();
    // the third waypoint was drawn at 9 m; the band is 4.5 m wide
    assert_eq!(out.x_3, 4_500_000);
    assert_eq!(out.x_1, 0);
    let mut d = straight_draws();
    d.x_1 = -3_000_000;
    let out = compute_ped(&s, &flow(), &d).unwrap();
    assert_eq!(out.x_1, 0);
}

#[test]
fn straight_crossing_lengths() {
    let s = Settings::default();
    let out = compute_ped(&s, &flow(), &straight_draws()).unwrap();
    // a 17 m road at 1 m/s and 0.01 s per sample: 851 samples reach past
    // the midline, 850 more reach past the far edge
    assert_eq!(out.max_step, 1701);
    assert_eq!(out.trajectory_series.len(), 1701);
    assert_eq!(out.v_1, 1_000_000);
    assert_eq!(out.v_2, 1_000_000);
}

#[test]
fn first_point_is_placed_at_the_near_crosswalk_edge() {
    let s = Settings::default();
    let out = compute_ped(&s, &flow(), &straight_draws()).unwrap();
    // the NxPy to NxNy leg anchors at (-13, 8.5) under a half-turn rotation,
    // so the first step of 0.01 m inward lands at (-13, 8.49)
    assert_eq!(out.trajectory_series[0], Vec2 { x: -13_000_000, y: 8_490_000 });
}

#[test]
fn frame_round_trip_exact_rotations() {
    // a quarter-turn rotation pair is exactly unit, so the inverse
    // transform recovers every point exactly
    let iso = Iso { rot: Rot { c: 0, s: 1_000_000 }, t: Vec2 { x: 3_000_000, y: -7_000_000 } };
    for p in [
        Vec2 { x: 0, y: 0 },
        Vec2 { x: 1_000_000, y: 2_000_000 },
        Vec2 { x: -5_432_100, y: 999_999 },
    ] {
        let q = iso_apply(&iso, p);
        assert_eq!(iso_unapply(&iso, q), p);
    }
    // a half-turn as well
    let iso = Iso { rot: Rot { c: -1_000_000, s: 0 }, t: Vec2 { x: 13_000_000, y: 8_500_000 } };
    for p in [Vec2 { x: 123, y: -456 }, Vec2 { x: -1, y: 1 }] {
        let q = iso_apply(&iso, p);
        assert_eq!(iso_unapply(&iso, q), p);
    }
}

#[test]
fn frame_round_trip_near_identity_for_skewed_rotation() {
    // an approximate rotation pair recovers points within rounding
    let c = 707_107;
    let s = 707_107;
    let iso = Iso { rot: Rot { c, s }, t: Vec2 { x: 1_000_000, y: 1_000_000 } };
    let p = Vec2 { x: 4_000_000, y: -2_500_000 };
    let q = iso_apply(&iso, p);
    let back = iso_unapply(&iso, q);
    assert!((back.x - p.x).abs() < 10, "x error: {}", back.x - p.x);
    assert!((back.y - p.y).abs() < 10, "y error: {}", back.y - p.y);
}
