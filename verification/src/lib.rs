//! Verified kernel of a microscopic traffic simulator for a single road
//! intersection.
//!
//! The library synthesizes discretized trajectories for turning vehicles and
//! crossing pedestrians, drives a signal-phase clock, and runs a tick-based
//! spawn/step/expire lifecycle for active agents.  All continuous quantities
//! (metres, metres per second, radians, seconds) are carried as 64-bit
//! fixed-point numbers scaled by one million, so every computation here is
//! exact integer arithmetic with a fully specified rounding rule.  Random
//! draws are made by the caller and handed in as plain values; every function
//! in this crate is deterministic and verified for all possible draws.

//!
//! Module map: [`fixed`] is the saturating fixed-point core, [`trig`] the
//! circular functions, [`dir`] the direction and movement tables, [`signal`]
//! the signal clock, [`settings`] the validated configuration, [`regress`]
//! the fitted distribution-parameter model, [`profile`], [`clothoid`] and
//! [`path`] the kinematic and geometric series builders, [`sampler`] and
//! [`crossing`] the four trajectory samplers, and [`sim`] the tick-driven
//! runtime.

use vstd::prelude::*;

pub mod clothoid;
pub mod crossing;
pub mod dir;
pub mod fixed;
pub mod path;
pub mod profile;
pub mod regress;
pub mod sampler;
pub mod settings;
pub mod signal;
pub mod sim;
pub mod trig;

verus! {

/// Fixed-point scale: one unit is a millionth of the carried quantity
/// (micrometres, microseconds, microradians, ...).
pub const FP_ONE: i64 = 1_000_000;

} // verus!
