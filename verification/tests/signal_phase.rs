//! Tests of the signal clock: one phase at every time, clean boundaries,
//! continuity across the cycle boundary, and the empty-Red edge case.

use intersim::dir::Dir;
use intersim::signal::PedSignal;
use intersim::signal::PedSignalState;
use intersim::signal::VehSignal;
use intersim::signal::VehSignalState;

fn veh(offset_s: u64, green_s: u64, yellow_s: u64, red_s: u64, cycle_s: u64) -> VehSignal {
    VehSignal {
        src_dir: Dir::NxPy,
        dst_dir: Dir::PyNx,
        offset_us: offset_s * 1_000_000,
        green_us: green_s * 1_000_000,
        yellow_us: yellow_s * 1_000_000,
        red_us: red_s * 1_000_000,
        cycle_us: cycle_s * 1_000_000,
    }
}

#[test]
fn phase_windows() {
    let s = veh(10, 20, 5, 65, 100);
    assert_eq!(s.phase_at(0), VehSignalState::Red);
    assert_eq!(s.phase_at(9_999_999), VehSignalState::Red);
    assert_eq!(s.phase_at(10_000_000), VehSignalState::Green);
    assert_eq!(s.phase_at(29_999_999), VehSignalState::Green);
    assert_eq!(s.phase_at(30_000_000), VehSignalState::Yellow);
    assert_eq!(s.phase_at(34_999_999), VehSignalState::Yellow);
    assert_eq!(s.phase_at(35_000_000), VehSignalState::Red);
    assert_eq!(s.phase_at(99_999_999), VehSignalState::Red);
}

#[test]
fn phase_periodic_across_cycle_boundary() {
    let s = veh(10, 20, 5, 65, 100);
    for t in [0u64, 5, 10, 15, 29, 30, 34, 35, 99] {
        let us = t * 1_000_000;
        assert_eq!(s.phase_at(us), s.phase_at(us + 100_000_000));
        assert_eq!(s.phase_at(us), s.phase_at(us + 700_000_000));
    }
    // the instant the cycle wraps continues the pattern at its start
    assert_eq!(s.phase_at(100_000_000), s.phase_at(0));
}

#[test]
fn exactly_one_phase_at_every_sample() {
    let s = veh(10, 20, 5, 65, 100);
    for t in 0..200u64 {
        let p = s.phase_at(t * 500_000);
        let count = [VehSignalState::Green, VehSignalState::Yellow, VehSignalState::Red]
            .iter()
            .filter(|q| **q == p)
            .count();
        assert_eq!(count, 1);
    }
}

#[test]
fn empty_red_interval_is_valid() {
    // green plus yellow fills the whole cycle: Red never appears
    let s = veh(0, 60, 40, 0, 100);
    for t in 0..400u64 {
        let p = s.phase_at(t * 250_000);
        assert_ne!(p, VehSignalState::Red);
    }
}

#[test]
fn ped_phase_windows() {
    let s = PedSignal {
        src_dir: Dir::NxNy,
        dst_dir: Dir::NxPy,
        offset_us: 5_000_000,
        green_us: 10_000_000,
        blink_us: 5_000_000,
        red_us: 80_000_000,
        cycle_us: 100_000_000,
    };
    assert_eq!(s.phase_at(0), PedSignalState::Red);
    assert_eq!(s.phase_at(5_000_000), PedSignalState::Green);
    assert_eq!(s.phase_at(14_999_999), PedSignalState::Green);
    assert_eq!(s.phase_at(15_000_000), PedSignalState::Blink);
    assert_eq!(s.phase_at(19_999_999), PedSignalState::Blink);
    assert_eq!(s.phase_at(20_000_000), PedSignalState::Red);
    assert_eq!(s.phase_at(105_000_000), PedSignalState::Green);
}
