//! The signal clock: mapping elapsed time to a discrete phase per movement.
//!
//! A phase is purely a function of elapsed time modulo the plan's cycle
//! length; there is no hysteresis and no history.  Times are carried in
//! microseconds as unsigned integers.

use vstd::prelude::*;
use vstd::arithmetic::div_mod::lemma_mod_add_multiples_vanish;
use crate::dir::Dir;

verus! {

/// Phase of a vehicle movement.
#[derive(Clone, Copy, PartialEq, Eq, Structural, Debug, Hash)]
pub enum VehSignalState {
    Green,
    Yellow,
    Red,
}

/// Phase of a pedestrian movement.
#[derive(Clone, Copy, PartialEq, Eq, Structural, Debug, Hash)]
pub enum PedSignalState {
    Green,
    Blink,
    Red,
}

/// Signal plan entry for one vehicle movement.  All times in microseconds.
#[derive(Clone, Copy, PartialEq, Eq, Structural, Debug)]
pub struct VehSignal {
    pub src_dir: Dir,
    pub dst_dir: Dir,
    pub offset_us: u64,
    pub green_us: u64,
    pub yellow_us: u64,
    pub red_us: u64,
    pub cycle_us: u64,
}

/// Signal plan entry for one pedestrian movement.  All times in microseconds.
#[derive(Clone, Copy, PartialEq, Eq, Structural, Debug)]
pub struct PedSignal {
    pub src_dir: Dir,
    pub dst_dir: Dir,
    pub offset_us: u64,
    pub green_us: u64,
    pub blink_us: u64,
    pub red_us: u64,
    pub cycle_us: u64,
}

/// Whether the in-cycle time `tau` falls in the half-open window
/// `[offset, offset + len)`.
pub open spec fn in_window(tau: int, offset: int, len: int) -> bool {
    offset <= tau < offset + len
}

impl VehSignal {
    /// A well-formed plan entry: positive cycle, and the offset plus the
    /// three durations fit within one cycle.  Note `green + yellow == cycle`
    /// (with zero offset and red) is allowed; the Red interval is then empty.
    pub open spec fn wf(self) -> bool {
        &&& self.cycle_us > 0
        &&& self.offset_us + self.green_us + self.yellow_us + self.red_us <= self.cycle_us
    }

    /// The in-cycle time of elapsed time `t`.
    pub open spec fn tau(self, t: int) -> int {
        t % (self.cycle_us as int)
    }

    pub open spec fn green_at(self, t: int) -> bool {
        in_window(self.tau(t), self.offset_us as int, self.green_us as int)
    }

    pub open spec fn yellow_at(self, t: int) -> bool {
        in_window(self.tau(t), self.offset_us + self.green_us, self.yellow_us as int)
    }

    pub open spec fn phase_spec(self, t: int) -> VehSignalState {
        if self.green_at(t) {
            VehSignalState::Green
        } else if self.yellow_at(t) {
            VehSignalState::Yellow
        } else {
            VehSignalState::Red
        }
    }

    /// The phase of this movement at elapsed time `t` microseconds.
    pub fn phase_at(&self, t: u64) -> (p: VehSignalState)
        requires
            self.wf(),
        ensures
            p == self.phase_spec(t as int),
    {
        let tau = t % self.cycle_us;
        let s1 = self.offset_us + self.green_us;
        let s2 = s1 + self.yellow_us;
        if self.offset_us <= tau && tau < s1 {
            VehSignalState::Green
        } else if s1 <= tau && tau < s2 {
            VehSignalState::Yellow
        } else {
            VehSignalState::Red
        }
    }
}

impl PedSignal {
    /// A well-formed plan entry: positive cycle, and the offset plus the
    /// three durations fit within one cycle.
    pub open spec fn wf(self) -> bool {
        &&& self.cycle_us > 0
        &&& self.offset_us + self.green_us + self.blink_us + self.red_us <= self.cycle_us
    }

    /// The in-cycle time of elapsed time `t`.
    pub open spec fn tau(self, t: int) -> int {
        t % (self.cycle_us as int)
    }

    pub open spec fn green_at(self, t: int) -> bool {
        in_window(self.tau(t), self.offset_us as int, self.green_us as int)
    }

    pub open spec fn blink_at(self, t: int) -> bool {
        in_window(self.tau(t), self.offset_us + self.green_us, self.blink_us as int)
    }

    pub open spec fn phase_spec(self, t: int) -> PedSignalState {
        if self.green_at(t) {
            PedSignalState::Green
        } else if self.blink_at(t) {
            PedSignalState::Blink
        } else {
            PedSignalState::Red
        }
    }

    /// The phase of this movement at elapsed time `t` microseconds.
    pub fn phase_at(&self, t: u64) -> (p: PedSignalState)
        requires
            self.wf(),
        ensures
            p == self.phase_spec(t as int),
    {
        let tau = t % self.cycle_us;
        let s1 = self.offset_us + self.green_us;
        let s2 = s1 + self.blink_us;
        if self.offset_us <= tau && tau < s1 {
            PedSignalState::Green
        } else if s1 <= tau && tau < s2 {
            PedSignalState::Blink
        } else {
            PedSignalState::Red
        }
    }
}

/// At every elapsed time exactly one phase is active: the Green, Yellow and
/// Red conditions of a well-formed vehicle plan partition the timeline.
pub proof fn lemma_veh_phase_exactly_one(s: VehSignal, t: int)
    requires
        s.wf(),
    ensures
        s.phase_spec(t) == VehSignalState::Green <==> s.green_at(t),
        s.phase_spec(t) == VehSignalState::Yellow <==> s.yellow_at(t),
        s.phase_spec(t) == VehSignalState::Red <==> (!s.green_at(t) && !s.yellow_at(t)),
        !(s.green_at(t) && s.yellow_at(t)),
{
}

/// Phase boundaries are continuous across the cycle boundary: shifting
/// elapsed time by a whole cycle never changes the phase, so the pattern at
/// `t mod cycle == 0` continues the previous cycle with no gap and no
/// overlap.
pub proof fn lemma_veh_phase_periodic(s: VehSignal, t: int)
    requires
        s.wf(),
    ensures
        s.phase_spec(t + s.cycle_us) == s.phase_spec(t),
{
    lemma_mod_add_multiples_vanish(t, s.cycle_us as int);
}

/// At every elapsed time exactly one phase is active for a well-formed
/// pedestrian plan.
pub proof fn lemma_ped_phase_exactly_one(s: PedSignal, t: int)
    requires
        s.wf(),
    ensures
        s.phase_spec(t) == PedSignalState::Green <==> s.green_at(t),
        s.phase_spec(t) == PedSignalState::Blink <==> s.blink_at(t),
        s.phase_spec(t) == PedSignalState::Red <==> (!s.green_at(t) && !s.blink_at(t)),
        !(s.green_at(t) && s.blink_at(t)),
{
}

/// Pedestrian phases are likewise periodic in the cycle length.
pub proof fn lemma_ped_phase_periodic(s: PedSignal, t: int)
    requires
        s.wf(),
    ensures
        s.phase_spec(t + s.cycle_us) == s.phase_spec(t),
{
    lemma_mod_add_multiples_vanish(t, s.cycle_us as int);
}

} // verus!
