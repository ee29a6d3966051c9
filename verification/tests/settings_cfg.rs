//! Tests of configuration validation, the default configuration, and the
//! context covariate sums.

use intersim::dir::Dir;
use intersim::dir::PedFlowDir;
use intersim::settings::ConfigError;
use intersim::settings::PedFlow;
use intersim::settings::Settings;
use intersim::settings::VehFlow;
use intersim::signal::PedSignal;
use intersim::signal::VehSignal;

fn veh_flow(src: Dir, src_lane: usize, dst: Dir, dst_lane: usize) -> VehFlow {
    VehFlow {
        src_dir: src,
        src_lane,
        dst_dir: dst,
        dst_lane,
        density: 100_000,
        v_in_mean: 10_000_000,
        v_in_stdv: 1_000_000,
        v_out_mean: 10_000_000,
        v_out_stdv: 1_000_000,
        padding_out_mean: 1_750_000,
        padding_out_stdv: 100_000,
        large_prob: 100_000,
    }
}

fn ped_flow(src: Dir, dst: Dir) -> PedFlow {
    PedFlow {
        src,
        dst,
        density: 100_000,
        v_in_mean: 1_000_000,
        v_in_stdv: 100_000,
        x_in_mean: 0,
        x_in_stdv: 100_000,
        d_in_mean: 0,
        d_in_stdv: 100_000,
        diagonal_prob: 100_000,
    }
}

fn always_green(src: Dir, dst: Dir) -> VehSignal {
    VehSignal {
        src_dir: src,
        dst_dir: dst,
        offset_us: 0,
        green_us: 360_000_000,
        yellow_us: 0,
        red_us: 0,
        cycle_us: 360_000_000,
    }
}

fn ped_signal(src: Dir, dst: Dir) -> PedSignal {
    PedSignal {
        src_dir: src,
        dst_dir: dst,
        offset_us: 0,
        green_us: 100_000_000,
        blink_us: 10_000_000,
        red_us: 130_000_000,
        cycle_us: 360_000_000,
    }
}

fn small_settings() -> Settings {
    let mut s = Settings::default();
    s.lt_veh_flows = vec![veh_flow(Dir::NxPy, 3, Dir::PyNx, 3)];
    s.rt_veh_flows = vec![];
    s.ped_flows = vec![ped_flow(Dir::NxPy, Dir::NxNy)];
    s.ig_ped_flows = vec![];
    s.veh_signals = vec![always_green(Dir::NxPy, Dir::PyNx)];
    s.ped_signals = vec![ped_signal(Dir::NxNy, Dir::NxPy)];
    s
}

#[test]
fn default_values() {
    let s = Settings::default();
    assert_eq!(s.angle, 90_000_000);
    assert_eq!(s.radius, 14_000_000);
    assert_eq!(s.lane_along, vec![-6_250_000, -2_750_000, 2_750_000, 6_250_000]);
    assert_eq!(s.lt_veh_flows.len(), 4);
    assert_eq!(s.rt_veh_flows.len(), 4);
    assert_eq!(s.ped_flows.len(), 8);
    assert_eq!(s.ig_ped_flows.len(), 8);
    assert_eq!(s.lt_veh_flows[0].density, 100_000);
    assert_eq!(s.lt_veh_flows[0].v_in_mean, 10_000_000);
}

#[test]
fn small_settings_validate_ok() {
    assert_eq!(small_settings().validate(), Ok(()));
}

#[test]
fn geometry_out_of_range() {
    let mut s = small_settings();
    s.angle = -1;
    assert_eq!(s.validate(), Err(ConfigError::GeometryOutOfRange));
    let mut s = small_settings();
    s.radius = 1_000_000_001;
    assert_eq!(s.validate(), Err(ConfigError::GeometryOutOfRange));
}

#[test]
fn signal_plan_invalid() {
    let mut s = small_settings();
    s.veh_signals[0].cycle_us = 0;
    assert_eq!(s.validate(), Err(ConfigError::SignalPlanInvalid));
    let mut s = small_settings();
    s.ped_signals[0].offset_us = 300_000_000;
    assert_eq!(s.validate(), Err(ConfigError::SignalPlanInvalid));
}

#[test]
fn unknown_vehicle_movement() {
    let mut s = small_settings();
    // a pair outside the left-turn table
    s.lt_veh_flows[0].dst_dir = Dir::NyPx;
    assert_eq!(s.validate(), Err(ConfigError::VehFlowInvalid));
}

#[test]
fn lane_out_of_range() {
    let mut s = small_settings();
    s.lt_veh_flows[0].src_lane = 4;
    assert_eq!(s.validate(), Err(ConfigError::VehFlowInvalid));
}

#[test]
fn unknown_crosswalk_leg() {
    let mut s = small_settings();
    s.ped_flows[0].dst = Dir::PyNx;
    assert_eq!(s.validate(), Err(ConfigError::PedFlowInvalid));
}

#[test]
fn movement_without_signal() {
    let mut s = small_settings();
    s.veh_signals[0].dst_dir = Dir::PxPy;
    assert_eq!(s.validate(), Err(ConfigError::MovementWithoutSignal));
}

#[test]
fn conflict_sum_adds_matching_left_turns() {
    let mut s = small_settings();
    // two left turns sweeping the NxPy2PxPy leg, one that does not
    let mut f1 = veh_flow(Dir::NxPy, 3, Dir::PyNx, 3);
    f1.density = 100_000;
    let mut f2 = veh_flow(Dir::NxPy, 2, Dir::PyNx, 1);
    f2.density = 200_000;
    let mut f3 = veh_flow(Dir::PxNy, 0, Dir::NyPx, 0);
    f3.density = 400_000;
    s.lt_veh_flows = vec![f1, f2, f3];
    let ctx = s.ped_context(PedFlowDir::NxPy2PxPy);
    assert_eq!(ctx.lt_veh_flow, 300_000);
    // the same leg read from the across axis
    assert_eq!(ctx.width, 17_000_000);
    assert_eq!(ctx.cw_width, 4_500_000);
    assert_eq!(ctx.cw_setback, 13_000_000);
    assert!(ctx.far_side);
}

#[test]
fn forward_backward_ped_sums() {
    let mut s = small_settings();
    let mut f1 = ped_flow(Dir::NxPy, Dir::NxNy);
    f1.density = 100_000;
    let mut f2 = ped_flow(Dir::NxPy, Dir::NxNy);
    f2.density = 50_000;
    let mut f3 = ped_flow(Dir::NxNy, Dir::NxPy);
    f3.density = 70_000;
    s.ped_flows = vec![f1, f2, f3];
    let ctx = s.ped_context(PedFlowDir::NxPy2NxNy);
    assert_eq!(ctx.forward_ped_flow, 150_000);
    assert_eq!(ctx.backward_ped_flow, 70_000);
    assert!(!ctx.far_side);
    assert_eq!(ctx.width, 17_000_000);
}
