//! The immutable configuration of a simulation run: intersection geometry,
//! per-movement flows, and signal plans, with load-time validation.
//!
//! A movement direction pair that no sampler recognizes, or a flow whose
//! movement has no signal plan entry, is a configuration error surfaced here
//! as a [`ConfigError`] — never a failure deep inside a sampler.

use vstd::prelude::*;
use crate::dir::Dir;
use crate::dir::PedFlowDir;
use crate::dir::VehFlowDir;
use crate::dir::left_turn_case_spec;
use crate::dir::lt_conflicts_spec;
use crate::dir::ped_case_spec;
use crate::dir::ped_reverse_spec;
use crate::dir::right_turn_case_spec;
use crate::dir::crosses_across_axis_spec;
use crate::dir::far_side_spec;
use crate::fixed::add_sat_spec;
use crate::fixed::add_sat;
use crate::fixed::in_range;
use crate::signal::PedSignal;
use crate::signal::VehSignal;

verus! {

/// Upper magnitude bound on configured geometry and flow values: one
/// thousand base units in fixed point, far beyond any physical
/// intersection.
pub const GEOM_MAX: i64 = 1_000_000_000;

/// A straight angle in fixed-point degrees.
pub const DEG_180: i64 = 180_000_000;

/// One vehicle flow: a fixed movement with its arrival and speed model.
#[derive(Clone, PartialEq, Debug)]
pub struct VehFlow {
    pub src_dir: Dir,
    pub src_lane: usize,
    pub dst_dir: Dir,
    pub dst_lane: usize,
    pub density: i64,
    pub v_in_mean: i64,
    pub v_in_stdv: i64,
    pub v_out_mean: i64,
    pub v_out_stdv: i64,
    pub padding_out_mean: i64,
    pub padding_out_stdv: i64,
    pub large_prob: i64,
}

/// One pedestrian flow: a fixed crosswalk leg with its arrival and speed
/// model.
#[derive(Clone, PartialEq, Debug)]
pub struct PedFlow {
    pub src: Dir,
    pub dst: Dir,
    pub density: i64,
    pub v_in_mean: i64,
    pub v_in_stdv: i64,
    pub x_in_mean: i64,
    pub x_in_stdv: i64,
    pub d_in_mean: i64,
    pub d_in_stdv: i64,
    pub diagonal_prob: i64,
}

/// The full immutable configuration of a run.
#[derive(Clone, PartialEq, Debug)]
pub struct Settings {
    pub angle: i64,
    pub radius: i64,
    pub width_along: i64,
    pub width_across: i64,
    pub lane_along: Vec<i64>,
    pub lane_across: Vec<i64>,
    pub hn_along: i64,
    pub hn_across: i64,
    pub cw_setback_along: i64,
    pub cw_setback_across: i64,
    pub cw_width_along: i64,
    pub cw_width_across: i64,
    pub sl_setback_along: i64,
    pub sl_setback_across: i64,
    pub lt_veh_flows: Vec<VehFlow>,
    pub rt_veh_flows: Vec<VehFlow>,
    pub ped_flows: Vec<PedFlow>,
    pub ig_ped_flows: Vec<PedFlow>,
    pub veh_signals: Vec<VehSignal>,
    pub ped_signals: Vec<PedSignal>,
}

/// What load-time validation can reject.
#[derive(Clone, Copy, PartialEq, Eq, Structural, Debug)]
pub enum ConfigError {
    /// A geometry value is outside its admissible range.
    GeometryOutOfRange,
    /// A signal plan entry is malformed (zero cycle, or windows that do not
    /// fit the cycle).
    SignalPlanInvalid,
    /// A vehicle flow is out of range, names an unknown movement, or points
    /// at a missing lane.
    VehFlowInvalid,
    /// A pedestrian flow is out of range or names an unknown crosswalk leg.
    PedFlowInvalid,
    /// A flow's movement has no signal plan entry.
    MovementWithoutSignal,
}

/// Whether a fixed-point value lies in `[0, GEOM_MAX]`.
pub open spec fn geom_val(x: int) -> bool {
    0 <= x <= GEOM_MAX as int
}

/// Whether a fixed-point value lies in `[-GEOM_MAX, GEOM_MAX]`.
pub open spec fn geom_val_signed(x: int) -> bool {
    -(GEOM_MAX as int) <= x <= GEOM_MAX as int
}

/// Whether the source arm of a vehicle movement case runs along the X axis
/// (so its lane offsets come from the along-axis lane list).
pub open spec fn src_uses_along(case: VehFlowDir) -> bool {
    match case {
        VehFlowDir::Nx2Px(_, _) | VehFlowDir::Px2Nx(_, _) => true,
        VehFlowDir::Ny2Py(_, _) | VehFlowDir::Py2Ny(_, _) => false,
        VehFlowDir::Nx2Py(_, _) | VehFlowDir::Px2Ny(_, _) => true,
        VehFlowDir::Py2Px(_, _) | VehFlowDir::Ny2Nx(_, _) => false,
        VehFlowDir::Nx2Ny(_, _) | VehFlowDir::Px2Py(_, _) => true,
        VehFlowDir::Ny2Px(_, _) | VehFlowDir::Py2Nx(_, _) => false,
    }
}

impl Settings {
    /// Geometry value ranges: the intersection angle within a straight
    /// angle, every length nonnegative and bounded, every lane offset
    /// bounded.
    pub open spec fn geom_wf(self) -> bool {
        &&& 0 <= self.angle <= DEG_180 as int
        &&& geom_val(self.radius as int)
        &&& geom_val(self.width_along as int)
        &&& geom_val(self.width_across as int)
        &&& geom_val(self.hn_along as int)
        &&& geom_val(self.hn_across as int)
        &&& geom_val(self.cw_setback_along as int)
        &&& geom_val(self.cw_setback_across as int)
        &&& geom_val(self.cw_width_along as int)
        &&& geom_val(self.cw_width_across as int)
        &&& geom_val(self.sl_setback_along as int)
        &&& geom_val(self.sl_setback_across as int)
        &&& forall|i: int|
            0 <= i < self.lane_along@.len() ==> geom_val_signed(#[trigger] self.lane_along@[i] as int)
        &&& forall|i: int|
            0 <= i < self.lane_across@.len() ==> geom_val_signed(
                #[trigger] self.lane_across@[i] as int,
            )
    }

    /// Value ranges shared by both vehicle flow lists.
    pub open spec fn veh_flow_ranges(f: VehFlow) -> bool {
        &&& geom_val(f.density as int)
        &&& geom_val_signed(f.v_in_mean as int)
        &&& geom_val(f.v_in_stdv as int)
        &&& geom_val_signed(f.v_out_mean as int)
        &&& geom_val(f.v_out_stdv as int)
        &&& geom_val_signed(f.padding_out_mean as int)
        &&& geom_val(f.padding_out_stdv as int)
        &&& 0 <= f.large_prob <= crate::FP_ONE as int
    }

    /// A well-formed left-turn flow: in range, a recognized left-turn
    /// movement, and a source lane that exists.
    pub open spec fn lt_flow_wf(self, f: VehFlow) -> bool {
        &&& Self::veh_flow_ranges(f)
        &&& left_turn_case_spec(f.src_dir, f.dst_dir, f.src_lane, f.dst_lane).is_some()
        &&& f.src_lane < self.src_lane_count(
            left_turn_case_spec(f.src_dir, f.dst_dir, f.src_lane, f.dst_lane).unwrap(),
        )
    }

    /// A well-formed right-turn flow.
    pub open spec fn rt_flow_wf(self, f: VehFlow) -> bool {
        &&& Self::veh_flow_ranges(f)
        &&& right_turn_case_spec(f.src_dir, f.dst_dir, f.src_lane, f.dst_lane).is_some()
        &&& f.src_lane < self.src_lane_count(
            right_turn_case_spec(f.src_dir, f.dst_dir, f.src_lane, f.dst_lane).unwrap(),
        )
    }

    /// The number of lanes on the source arm's axis of a movement case.
    pub open spec fn src_lane_count(self, case: VehFlowDir) -> nat {
        if src_uses_along(case) {
            self.lane_along@.len()
        } else {
            self.lane_across@.len()
        }
    }

    /// A well-formed pedestrian flow: in range and a recognized crosswalk
    /// leg.
    pub open spec fn ped_flow_wf(f: PedFlow) -> bool {
        &&& geom_val(f.density as int)
        &&& geom_val_signed(f.v_in_mean as int)
        &&& geom_val(f.v_in_stdv as int)
        &&& geom_val_signed(f.x_in_mean as int)
        &&& geom_val(f.x_in_stdv as int)
        &&& geom_val_signed(f.d_in_mean as int)
        &&& geom_val(f.d_in_stdv as int)
        &&& 0 <= f.diagonal_prob <= crate::FP_ONE as int
        &&& ped_case_spec(f.src, f.dst).is_some()
    }

    /// All flows of both vehicle lists are well-formed.
    pub open spec fn veh_flows_wf(self) -> bool {
        &&& forall|i: int|
            0 <= i < self.lt_veh_flows@.len() ==> self.lt_flow_wf(#[trigger] self.lt_veh_flows@[i])
        &&& forall|i: int|
            0 <= i < self.rt_veh_flows@.len() ==> self.rt_flow_wf(#[trigger] self.rt_veh_flows@[i])
    }

    /// All pedestrian flows of both lists are well-formed.
    pub open spec fn ped_flows_wf(self) -> bool {
        &&& forall|i: int|
            0 <= i < self.ped_flows@.len() ==> Self::ped_flow_wf(#[trigger] self.ped_flows@[i])
        &&& forall|i: int|
            0 <= i < self.ig_ped_flows@.len() ==> Self::ped_flow_wf(#[trigger] self.ig_ped_flows@[i])
    }

    /// All signal plan entries are well-formed.
    pub open spec fn signals_wf(self) -> bool {
        &&& forall|i: int|
            0 <= i < self.veh_signals@.len() ==> (#[trigger] self.veh_signals@[i]).wf()
        &&& forall|i: int|
            0 <= i < self.ped_signals@.len() ==> (#[trigger] self.ped_signals@[i]).wf()
    }

    /// Whether some vehicle signal entry covers the movement.
    pub open spec fn has_veh_signal(self, src: Dir, dst: Dir) -> bool {
        exists|i: int|
            0 <= i < self.veh_signals@.len() && (#[trigger] self.veh_signals@[i]).src_dir == src
                && self.veh_signals@[i].dst_dir == dst
    }

    /// Whether some pedestrian signal entry covers the movement, walked in
    /// either direction.
    pub open spec fn has_ped_signal(self, src: Dir, dst: Dir) -> bool {
        exists|i: int|
            0 <= i < self.ped_signals@.len() && ((#[trigger] self.ped_signals@[i]).src_dir == src
                && self.ped_signals@[i].dst_dir == dst || self.ped_signals@[i].src_dir == dst
                && self.ped_signals@[i].dst_dir == src)
    }

    /// Every flow's movement is covered by a signal plan entry.
    pub open spec fn coverage_wf(self) -> bool {
        &&& forall|i: int|
            0 <= i < self.lt_veh_flows@.len() ==> self.has_veh_signal(
                (#[trigger] self.lt_veh_flows@[i]).src_dir,
                self.lt_veh_flows@[i].dst_dir,
            )
        &&& forall|i: int|
            0 <= i < self.rt_veh_flows@.len() ==> self.has_veh_signal(
                (#[trigger] self.rt_veh_flows@[i]).src_dir,
                self.rt_veh_flows@[i].dst_dir,
            )
        &&& forall|i: int|
            0 <= i < self.ped_flows@.len() ==> self.has_ped_signal(
                (#[trigger] self.ped_flows@[i]).src,
                self.ped_flows@[i].dst,
            )
        &&& forall|i: int|
            0 <= i < self.ig_ped_flows@.len() ==> self.has_ped_signal(
                (#[trigger] self.ig_ped_flows@[i]).src,
                self.ig_ped_flows@[i].dst,
            )
    }

    /// A fully well-formed configuration.
    pub open spec fn wf(self) -> bool {
        &&& self.geom_wf()
        &&& self.signals_wf()
        &&& self.veh_flows_wf()
        &&& self.ped_flows_wf()
        &&& self.coverage_wf()
    }
}

/// Aggregate density of the configured left-turn flows that sweep the given
/// crosswalk leg, over the first `n` flows.  Movements outside the conflict
/// table contribute nothing.
pub open spec fn lt_conflict_sum(flows: Seq<VehFlow>, ped: PedFlowDir, n: int) -> int
    decreases n,
{
    if n <= 0 {
        0
    } else {
        let f = flows[n - 1];
        let prev = lt_conflict_sum(flows, ped, n - 1);
        let case = left_turn_case_spec(f.src_dir, f.dst_dir, f.src_lane, f.dst_lane);
        if case.is_some() && lt_conflicts_spec(case.unwrap(), ped) {
            add_sat_spec(prev, f.density as int)
        } else {
            prev
        }
    }
}

/// Aggregate density of the configured pedestrian flows that walk the given
/// crosswalk leg, over the first `n` flows.
pub open spec fn ped_dir_sum(flows: Seq<PedFlow>, d: PedFlowDir, n: int) -> int
    decreases n,
{
    if n <= 0 {
        0
    } else {
        let f = flows[n - 1];
        let prev = ped_dir_sum(flows, d, n - 1);
        if ped_case_spec(f.src, f.dst) == Some(d) {
            add_sat_spec(prev, f.density as int)
        } else {
            prev
        }
    }
}

/// The sums stay in the saturating range.
pub proof fn lemma_lt_conflict_sum_in_range(flows: Seq<VehFlow>, ped: PedFlowDir, n: int)
    requires
        forall|i: int| 0 <= i < flows.len() ==> in_range((#[trigger] flows[i]).density as int),
    ensures
        in_range(lt_conflict_sum(flows, ped, n)),
    decreases n,
{
    if n > 0 {
        lemma_lt_conflict_sum_in_range(flows, ped, n - 1);
    }
}

/// The sums stay in the saturating range.
pub proof fn lemma_ped_dir_sum_in_range(flows: Seq<PedFlow>, d: PedFlowDir, n: int)
    requires
        forall|i: int| 0 <= i < flows.len() ==> in_range((#[trigger] flows[i]).density as int),
    ensures
        in_range(ped_dir_sum(flows, d, n)),
    decreases n,
{
    if n > 0 {
        lemma_ped_dir_sum_in_range(flows, d, n - 1);
    }
}

/// The geometric and contextual covariates of one crossing movement.
pub struct PedContext {
    /// Width of the road being crossed.
    pub width: i64,
    /// Width of the crosswalk band.
    pub cw_width: i64,
    /// Setback of the crosswalk from the intersection center.
    pub cw_setback: i64,
    /// Whether the far edge of the crosswalk is used.
    pub far_side: bool,
    /// Aggregate conflicting left-turn vehicle density.
    pub lt_veh_flow: i64,
    /// Aggregate same-direction pedestrian density.
    pub forward_ped_flow: i64,
    /// Aggregate opposite-direction pedestrian density.
    pub backward_ped_flow: i64,
}

impl Settings {
    /// Resolves the geometry scalars and context covariates of a crossing
    /// movement: widths and setback from the axis it spans, the far-side
    /// flag from the table, and the three aggregate densities summed over
    /// the configured flows.
    pub fn ped_context(&self, d: PedFlowDir) -> (r: PedContext)
        requires
            self.geom_wf(),
            forall|i: int|
                0 <= i < self.lt_veh_flows@.len() ==> in_range(
                    (#[trigger] self.lt_veh_flows@[i]).density as int,
                ),
            forall|i: int|
                0 <= i < self.ped_flows@.len() ==> in_range(
                    (#[trigger] self.ped_flows@[i]).density as int,
                ),
        ensures
            r.width == if crosses_across_axis_spec(d) {
                self.width_across
            } else {
                self.width_along
            },
            r.cw_width == if crosses_across_axis_spec(d) {
                self.cw_width_across
            } else {
                self.cw_width_along
            },
            r.cw_setback == if crosses_across_axis_spec(d) {
                self.cw_setback_across
            } else {
                self.cw_setback_along
            },
            r.far_side == far_side_spec(d),
            r.lt_veh_flow as int == lt_conflict_sum(
                self.lt_veh_flows@,
                d,
                self.lt_veh_flows@.len() as int,
            ),
            r.forward_ped_flow as int == ped_dir_sum(
                self.ped_flows@,
                d,
                self.ped_flows@.len() as int,
            ),
            r.backward_ped_flow as int == ped_dir_sum(
                self.ped_flows@,
                ped_reverse_spec(d),
                self.ped_flows@.len() as int,
            ),
    {
        let across = crate::dir::crosses_across_axis(d);
        let far_side = crate::dir::far_side(d);
        let mut lt_flow: i64 = 0;
        let mut i: usize = 0;
        let n = self.lt_veh_flows.len();
        while i < n
            invariant
                n == self.lt_veh_flows@.len(),
                i <= n,
                forall|j: int|
                    0 <= j < self.lt_veh_flows@.len() ==> in_range(
                        (#[trigger] self.lt_veh_flows@[j]).density as int,
                    ),
                lt_flow as int == lt_conflict_sum(self.lt_veh_flows@, d, i as int),
                in_range(lt_flow as int),
            decreases n - i,
        {
            let f = &self.lt_veh_flows[i];
            let case = crate::dir::left_turn_case(f.src_dir, f.dst_dir, f.src_lane, f.dst_lane);
            if let Some(c) = case {
                if crate::dir::lt_conflicts(c, d) {
                    proof {
                        assert(in_range(self.lt_veh_flows@[i as int].density as int));
                    }
                    lt_flow = add_sat(lt_flow, f.density);
                }
            }
            i = i + 1;
        }
        let rev = d.reverse();
        let mut fwd: i64 = 0;
        let mut back: i64 = 0;
        let mut i: usize = 0;
        let n = self.ped_flows.len();
        while i < n
            invariant
                n == self.ped_flows@.len(),
                i <= n,
                forall|j: int|
                    0 <= j < self.ped_flows@.len() ==> in_range(
                        (#[trigger] self.ped_flows@[j]).density as int,
                    ),
                rev == ped_reverse_spec(d),
                fwd as int == ped_dir_sum(self.ped_flows@, d, i as int),
                back as int == ped_dir_sum(self.ped_flows@, rev, i as int),
                in_range(fwd as int),
                in_range(back as int),
            decreases n - i,
        {
            let f = &self.ped_flows[i];
            let case = crate::dir::ped_case(f.src, f.dst);
            proof {
                assert(in_range(self.ped_flows@[i as int].density as int));
            }
            let is_fwd = match case {
                Some(x) => x == d,
                None => false,
            };
            let is_back = match case {
                Some(x) => x == rev,
                None => false,
            };
            if is_fwd {
                fwd = add_sat(fwd, f.density);
            }
            if is_back {
                back = add_sat(back, f.density);
            }
            i = i + 1;
        }
        PedContext {
            width: if across {
                self.width_across
            } else {
                self.width_along
            },
            cw_width: if across {
                self.cw_width_across
            } else {
                self.cw_width_along
            },
            cw_setback: if across {
                self.cw_setback_across
            } else {
                self.cw_setback_along
            },
            far_side,
            lt_veh_flow: lt_flow,
            forward_ped_flow: fwd,
            backward_ped_flow: back,
        }
    }
}


/// Executable mirror of [`src_uses_along`].
pub fn src_uses_along_check(case: VehFlowDir) -> (r: bool)
    ensures
        r == src_uses_along(case),
{
    match case {
        VehFlowDir::Nx2Px(_, _) | VehFlowDir::Px2Nx(_, _) => true,
        VehFlowDir::Ny2Py(_, _) | VehFlowDir::Py2Ny(_, _) => false,
        VehFlowDir::Nx2Py(_, _) | VehFlowDir::Px2Ny(_, _) => true,
        VehFlowDir::Py2Px(_, _) | VehFlowDir::Ny2Nx(_, _) => false,
        VehFlowDir::Nx2Ny(_, _) | VehFlowDir::Px2Py(_, _) => true,
        VehFlowDir::Ny2Px(_, _) | VehFlowDir::Py2Nx(_, _) => false,
    }
}

impl Settings {
    /// Checks the geometry value ranges.
    fn check_geom(&self) -> (r: bool)
        ensures
            r == self.geom_wf(),
    {
        let mut ok = 0 <= self.angle && self.angle <= DEG_180 && (0 <= self.radius && self.radius
            <= GEOM_MAX) && (0 <= self.width_along && self.width_along <= GEOM_MAX) && (0
            <= self.width_across && self.width_across <= GEOM_MAX) && (0 <= self.hn_along
            && self.hn_along <= GEOM_MAX) && (0 <= self.hn_across && self.hn_across <= GEOM_MAX) && (0
            <= self.cw_setback_along && self.cw_setback_along <= GEOM_MAX) && (0
            <= self.cw_setback_across && self.cw_setback_across <= GEOM_MAX) && (0
            <= self.cw_width_along && self.cw_width_along <= GEOM_MAX) && (0 <= self.cw_width_across
            && self.cw_width_across <= GEOM_MAX) && (0 <= self.sl_setback_along
            && self.sl_setback_along <= GEOM_MAX) && (0 <= self.sl_setback_across
            && self.sl_setback_across <= GEOM_MAX);
        let mut i: usize = 0;
        let n = self.lane_along.len();
        while i < n
            invariant
                n == self.lane_along@.len(),
                i <= n,
                ok ==> forall|j: int|
                    0 <= j < i ==> geom_val_signed(#[trigger] self.lane_along@[j] as int),
                ok ==> (0 <= self.angle <= DEG_180 as int && geom_val(self.radius as int) && geom_val(
                    self.width_along as int,
                ) && geom_val(self.width_across as int) && geom_val(self.hn_along as int) && geom_val(
                    self.hn_across as int,
                ) && geom_val(self.cw_setback_along as int) && geom_val(self.cw_setback_across as int)
                    && geom_val(self.cw_width_along as int) && geom_val(self.cw_width_across as int)
                    && geom_val(self.sl_setback_along as int) && geom_val(
                    self.sl_setback_across as int,
                )),
                !ok ==> !self.geom_wf(),
            decreases n - i,
        {
            let v = self.lane_along[i];
            if !(-GEOM_MAX <= v && v <= GEOM_MAX) {
                ok = false;
            }
            i = i + 1;
        }
        let mut i: usize = 0;
        let n = self.lane_across.len();
        while i < n
            invariant
                n == self.lane_across@.len(),
                i <= n,
                ok ==> forall|j: int|
                    0 <= j < i ==> geom_val_signed(#[trigger] self.lane_across@[j] as int),
                ok ==> forall|j: int|
                    0 <= j < self.lane_along@.len() ==> geom_val_signed(
                        #[trigger] self.lane_along@[j] as int,
                    ),
                ok ==> (0 <= self.angle <= DEG_180 as int && geom_val(self.radius as int) && geom_val(
                    self.width_along as int,
                ) && geom_val(self.width_across as int) && geom_val(self.hn_along as int) && geom_val(
                    self.hn_across as int,
                ) && geom_val(self.cw_setback_along as int) && geom_val(self.cw_setback_across as int)
                    && geom_val(self.cw_width_along as int) && geom_val(self.cw_width_across as int)
                    && geom_val(self.sl_setback_along as int) && geom_val(
                    self.sl_setback_across as int,
                )),
                !ok ==> !self.geom_wf(),
            decreases n - i,
        {
            let v = self.lane_across[i];
            if !(-GEOM_MAX <= v && v <= GEOM_MAX) {
                ok = false;
            }
            i = i + 1;
        }
        ok
    }

    /// Checks every signal plan entry.
    fn check_signals(&self) -> (r: bool)
        ensures
            r == self.signals_wf(),
    {
        let mut i: usize = 0;
        let n = self.veh_signals.len();
        while i < n
            invariant
                n == self.veh_signals@.len(),
                i <= n,
                forall|j: int| 0 <= j < i ==> (#[trigger] self.veh_signals@[j]).wf(),
            decreases n - i,
        {
            let s = &self.veh_signals[i];
            let sum: u128 = s.offset_us as u128 + s.green_us as u128 + s.yellow_us as u128
                + s.red_us as u128;
            if !(s.cycle_us > 0 && sum <= s.cycle_us as u128) {
                return false;
            }
            i = i + 1;
        }
        let mut i: usize = 0;
        let n = self.ped_signals.len();
        while i < n
            invariant
                n == self.ped_signals@.len(),
                i <= n,
                forall|j: int| 0 <= j < self.veh_signals@.len() ==> (#[trigger] self.veh_signals@[j]).wf(),
                forall|j: int| 0 <= j < i ==> (#[trigger] self.ped_signals@[j]).wf(),
            decreases n - i,
        {
            let s = &self.ped_signals[i];
            let sum: u128 = s.offset_us as u128 + s.green_us as u128 + s.blink_us as u128
                + s.red_us as u128;
            if !(s.cycle_us > 0 && sum <= s.cycle_us as u128) {
                return false;
            }
            i = i + 1;
        }
        true
    }

    /// Checks one vehicle flow's value ranges.
    fn check_veh_ranges(f: &VehFlow) -> (r: bool)
        ensures
            r == Self::veh_flow_ranges(*f),
    {
        0 <= f.density && f.density <= GEOM_MAX && -GEOM_MAX <= f.v_in_mean && f.v_in_mean
            <= GEOM_MAX && 0 <= f.v_in_stdv && f.v_in_stdv <= GEOM_MAX && -GEOM_MAX <= f.v_out_mean
            && f.v_out_mean <= GEOM_MAX && 0 <= f.v_out_stdv && f.v_out_stdv <= GEOM_MAX && -GEOM_MAX
            <= f.padding_out_mean && f.padding_out_mean <= GEOM_MAX && 0 <= f.padding_out_stdv
            && f.padding_out_stdv <= GEOM_MAX && 0 <= f.large_prob && f.large_prob <= crate::FP_ONE
    }

    /// Checks both vehicle flow lists.
    fn check_veh_flows(&self) -> (r: bool)
        ensures
            r == self.veh_flows_wf(),
    {
        let mut i: usize = 0;
        let n = self.lt_veh_flows.len();
        while i < n
            invariant
                n == self.lt_veh_flows@.len(),
                i <= n,
                forall|j: int| 0 <= j < i ==> self.lt_flow_wf(#[trigger] self.lt_veh_flows@[j]),
            decreases n - i,
        {
            let f = &self.lt_veh_flows[i];
            if !Self::check_veh_ranges(f) {
                return false;
            }
            let case = crate::dir::left_turn_case(f.src_dir, f.dst_dir, f.src_lane, f.dst_lane);
            match case {
                None => {
                    return false;
                },
                Some(c) => {
                    let lanes = if src_uses_along_check(c) {
                        self.lane_along.len()
                    } else {
                        self.lane_across.len()
                    };
                    if !(f.src_lane < lanes) {
                        return false;
                    }
                },
            }
            i = i + 1;
        }
        let mut i: usize = 0;
        let n = self.rt_veh_flows.len();
        while i < n
            invariant
                n == self.rt_veh_flows@.len(),
                i <= n,
                forall|j: int|
                    0 <= j < self.lt_veh_flows@.len() ==> self.lt_flow_wf(
                        #[trigger] self.lt_veh_flows@[j],
                    ),
                forall|j: int| 0 <= j < i ==> self.rt_flow_wf(#[trigger] self.rt_veh_flows@[j]),
            decreases n - i,
        {
            let f = &self.rt_veh_flows[i];
            if !Self::check_veh_ranges(f) {
                return false;
            }
            let case = crate::dir::right_turn_case(f.src_dir, f.dst_dir, f.src_lane, f.dst_lane);
            match case {
                None => {
                    return false;
                },
                Some(c) => {
                    let lanes = if src_uses_along_check(c) {
                        self.lane_along.len()
                    } else {
                        self.lane_across.len()
                    };
                    if !(f.src_lane < lanes) {
                        return false;
                    }
                },
            }
            i = i + 1;
        }
        true
    }

    /// Checks one pedestrian flow.
    fn check_ped_flow(f: &PedFlow) -> (r: bool)
        ensures
            r == Self::ped_flow_wf(*f),
    {
        let ranges = 0 <= f.density && f.density <= GEOM_MAX && -GEOM_MAX <= f.v_in_mean
            && f.v_in_mean <= GEOM_MAX && 0 <= f.v_in_stdv && f.v_in_stdv <= GEOM_MAX && -GEOM_MAX
            <= f.x_in_mean && f.x_in_mean <= GEOM_MAX && 0 <= f.x_in_stdv && f.x_in_stdv <= GEOM_MAX
            && -GEOM_MAX <= f.d_in_mean && f.d_in_mean <= GEOM_MAX && 0 <= f.d_in_stdv && f.d_in_stdv
            <= GEOM_MAX && 0 <= f.diagonal_prob && f.diagonal_prob <= crate::FP_ONE;
        let case = crate::dir::ped_case(f.src, f.dst);
        ranges && case.is_some()
    }

    /// Checks both pedestrian flow lists.
    fn check_ped_flows(&self) -> (r: bool)
        ensures
            r == self.ped_flows_wf(),
    {
        let mut i: usize = 0;
        let n = self.ped_flows.len();
        while i < n
            invariant
                n == self.ped_flows@.len(),
                i <= n,
                forall|j: int| 0 <= j < i ==> Self::ped_flow_wf(#[trigger] self.ped_flows@[j]),
            decreases n - i,
        {
            if !Self::check_ped_flow(&self.ped_flows[i]) {
                return false;
            }
            i = i + 1;
        }
        let mut i: usize = 0;
        let n = self.ig_ped_flows.len();
        while i < n
            invariant
                n == self.ig_ped_flows@.len(),
                i <= n,
                forall|j: int| 0 <= j < self.ped_flows@.len() ==> Self::ped_flow_wf(#[trigger] self.ped_flows@[j]),
                forall|j: int| 0 <= j < i ==> Self::ped_flow_wf(#[trigger] self.ig_ped_flows@[j]),
            decreases n - i,
        {
            if !Self::check_ped_flow(&self.ig_ped_flows[i]) {
                return false;
            }
            i = i + 1;
        }
        true
    }

    /// Looks for a vehicle signal entry covering the movement.
    pub fn find_veh_signal(&self, src: Dir, dst: Dir) -> (r: Option<usize>)
        ensures
            r.is_some() <==> self.has_veh_signal(src, dst),
            r.is_some() ==> r.unwrap() < self.veh_signals@.len()
                && self.veh_signals@[r.unwrap() as int].src_dir == src
                && self.veh_signals@[r.unwrap() as int].dst_dir == dst,
    {
        let mut i: usize = 0;
        let n = self.veh_signals.len();
        while i < n
            invariant
                n == self.veh_signals@.len(),
                i <= n,
                forall|j: int|
                    0 <= j < i ==> !((#[trigger] self.veh_signals@[j]).src_dir == src
                        && self.veh_signals@[j].dst_dir == dst),
            decreases n - i,
        {
            let s = &self.veh_signals[i];
            if s.src_dir == src && s.dst_dir == dst {
                return Some(i);
            }
            i = i + 1;
        }
        None
    }

    /// Looks for a pedestrian signal entry covering the movement, walked in
    /// either direction.
    pub fn find_ped_signal(&self, src: Dir, dst: Dir) -> (r: Option<usize>)
        ensures
            r.is_some() <==> self.has_ped_signal(src, dst),
            r.is_some() ==> r.unwrap() < self.ped_signals@.len()
                && (self.ped_signals@[r.unwrap() as int].src_dir == src
                && self.ped_signals@[r.unwrap() as int].dst_dir == dst
                || self.ped_signals@[r.unwrap() as int].src_dir == dst
                && self.ped_signals@[r.unwrap() as int].dst_dir == src),
    {
        let mut i: usize = 0;
        let n = self.ped_signals.len();
        while i < n
            invariant
                n == self.ped_signals@.len(),
                i <= n,
                forall|j: int|
                    0 <= j < i ==> !((#[trigger] self.ped_signals@[j]).src_dir == src
                        && self.ped_signals@[j].dst_dir == dst || self.ped_signals@[j].src_dir == dst
                        && self.ped_signals@[j].dst_dir == src),
            decreases n - i,
        {
            let s = &self.ped_signals[i];
            if s.src_dir == src && s.dst_dir == dst || s.src_dir == dst && s.dst_dir == src {
                return Some(i);
            }
            i = i + 1;
        }
        None
    }

    /// Checks that every flow's movement has a signal plan entry.
    fn check_coverage(&self) -> (r: bool)
        ensures
            r == self.coverage_wf(),
    {
        let mut i: usize = 0;
        let n = self.lt_veh_flows.len();
        while i < n
            invariant
                n == self.lt_veh_flows@.len(),
                i <= n,
                forall|j: int|
                    0 <= j < i ==> self.has_veh_signal(
                        (#[trigger] self.lt_veh_flows@[j]).src_dir,
                        self.lt_veh_flows@[j].dst_dir,
                    ),
            decreases n - i,
        {
            let f = &self.lt_veh_flows[i];
            if self.find_veh_signal(f.src_dir, f.dst_dir).is_none() {
                return false;
            }
            i = i + 1;
        }
        let mut i: usize = 0;
        let n = self.rt_veh_flows.len();
        while i < n
            invariant
                n == self.rt_veh_flows@.len(),
                i <= n,
                forall|j: int|
                    0 <= j < self.lt_veh_flows@.len() ==> self.has_veh_signal(
                        (#[trigger] self.lt_veh_flows@[j]).src_dir,
                        self.lt_veh_flows@[j].dst_dir,
                    ),
                forall|j: int|
                    0 <= j < i ==> self.has_veh_signal(
                        (#[trigger] self.rt_veh_flows@[j]).src_dir,
                        self.rt_veh_flows@[j].dst_dir,
                    ),
            decreases n - i,
        {
            let f = &self.rt_veh_flows[i];
            if self.find_veh_signal(f.src_dir, f.dst_dir).is_none() {
                return false;
            }
            i = i + 1;
        }
        let mut i: usize = 0;
        let n = self.ped_flows.len();
        while i < n
            invariant
                n == self.ped_flows@.len(),
                i <= n,
                forall|j: int|
                    0 <= j < self.lt_veh_flows@.len() ==> self.has_veh_signal(
                        (#[trigger] self.lt_veh_flows@[j]).src_dir,
                        self.lt_veh_flows@[j].dst_dir,
                    ),
                forall|j: int|
                    0 <= j < self.rt_veh_flows@.len() ==> self.has_veh_signal(
                        (#[trigger] self.rt_veh_flows@[j]).src_dir,
                        self.rt_veh_flows@[j].dst_dir,
                    ),
                forall|j: int|
                    0 <= j < i ==> self.has_ped_signal(
                        (#[trigger] self.ped_flows@[j]).src,
                        self.ped_flows@[j].dst,
                    ),
            decreases n - i,
        {
            let f = &self.ped_flows[i];
            if self.find_ped_signal(f.src, f.dst).is_none() {
                return false;
            }
            i = i + 1;
        }
        let mut i: usize = 0;
        let n = self.ig_ped_flows.len();
        while i < n
            invariant
                n == self.ig_ped_flows@.len(),
                i <= n,
                forall|j: int|
                    0 <= j < self.lt_veh_flows@.len() ==> self.has_veh_signal(
                        (#[trigger] self.lt_veh_flows@[j]).src_dir,
                        self.lt_veh_flows@[j].dst_dir,
                    ),
                forall|j: int|
                    0 <= j < self.rt_veh_flows@.len() ==> self.has_veh_signal(
                        (#[trigger] self.rt_veh_flows@[j]).src_dir,
                        self.rt_veh_flows@[j].dst_dir,
                    ),
                forall|j: int|
                    0 <= j < self.ped_flows@.len() ==> self.has_ped_signal(
                        (#[trigger] self.ped_flows@[j]).src,
                        self.ped_flows@[j].dst,
                    ),
                forall|j: int|
                    0 <= j < i ==> self.has_ped_signal(
                        (#[trigger] self.ig_ped_flows@[j]).src,
                        self.ig_ped_flows@[j].dst,
                    ),
            decreases n - i,
        {
            let f = &self.ig_ped_flows[i];
            if self.find_ped_signal(f.src, f.dst).is_none() {
                return false;
            }
            i = i + 1;
        }
        true
    }

    /// Load-time validation.  Succeeds exactly on well-formed
    /// configurations; each error names the first failing category, checked
    /// in the order geometry, signal plans, vehicle flows, pedestrian flows,
    /// signal coverage.
    pub fn validate(&self) -> (r: Result<(), ConfigError>)
        ensures
            r.is_ok() <==> self.wf(),
            r == Err::<(), ConfigError>(ConfigError::GeometryOutOfRange) <==> !self.geom_wf(),
            r == Err::<(), ConfigError>(ConfigError::SignalPlanInvalid) <==> self.geom_wf()
                && !self.signals_wf(),
            r == Err::<(), ConfigError>(ConfigError::VehFlowInvalid) <==> self.geom_wf()
                && self.signals_wf() && !self.veh_flows_wf(),
            r == Err::<(), ConfigError>(ConfigError::PedFlowInvalid) <==> self.geom_wf()
                && self.signals_wf() && self.veh_flows_wf() && !self.ped_flows_wf(),
            r == Err::<(), ConfigError>(ConfigError::MovementWithoutSignal) <==> self.geom_wf()
                && self.signals_wf() && self.veh_flows_wf() && self.ped_flows_wf()
                && !self.coverage_wf(),
    {
        if !self.check_geom() {
            return Err(ConfigError::GeometryOutOfRange);
        }
        if !self.check_signals() {
            return Err(ConfigError::SignalPlanInvalid);
        }
        if !self.check_veh_flows() {
            return Err(ConfigError::VehFlowInvalid);
        }
        if !self.check_ped_flows() {
            return Err(ConfigError::PedFlowInvalid);
        }
        if !self.check_coverage() {
            return Err(ConfigError::MovementWithoutSignal);
        }
        Ok(())
    }
}


/// The baseline configuration: a symmetric 90-degree intersection with four
/// lanes per road, four left-turn and four right-turn vehicle flows, and
/// all eight crosswalk legs in both the ordinary and the inter-green lists,
/// under a two-phase 360-second signal plan.
///
/// The vehicle plan entries here describe the two straight corridors, so
/// the turning flows listed have no matching plan entries of their own; a
/// host supplies a covering plan before building a runtime, and
/// [`Settings::validate`] reports the gap otherwise.
impl Default for Settings {
    fn default() -> (r: Settings)
        ensures
            r.angle == 90_000_000,
            r.radius == 14_000_000,
            r.lane_along@.len() == 4,
            r.lane_across@.len() == 4,
            r.lt_veh_flows@.len() == 4,
            r.rt_veh_flows@.len() == 4,
            r.ped_flows@.len() == 8,
            r.ig_ped_flows@.len() == 8,
            r.veh_signals@.len() == 4,
            r.ped_signals@.len() == 4,
    {
        let mut lane_along: Vec<i64> = Vec::new();
        lane_along.push(-6_250_000);
        lane_along.push(-2_750_000);
        lane_along.push(2_750_000);
        lane_along.push(6_250_000);
        let mut lane_across: Vec<i64> = Vec::new();
        lane_across.push(-6_250_000);
        lane_across.push(-2_750_000);
        lane_across.push(2_750_000);
        lane_across.push(6_250_000);
        let mut lt_veh_flows: Vec<VehFlow> = Vec::new();
        lt_veh_flows.push(default_veh_flow(Dir::NxPy, 3, Dir::PyNx, 3));
        lt_veh_flows.push(default_veh_flow(Dir::PyPx, 0, Dir::PxPy, 3));
        lt_veh_flows.push(default_veh_flow(Dir::PxNy, 0, Dir::NyPx, 0));
        lt_veh_flows.push(default_veh_flow(Dir::NyNx, 3, Dir::NxNy, 0));
        let mut rt_veh_flows: Vec<VehFlow> = Vec::new();
        rt_veh_flows.push(default_veh_flow(Dir::NxPy, 2, Dir::NyPx, 1));
        rt_veh_flows.push(default_veh_flow(Dir::NyNx, 2, Dir::PxPy, 2));
        rt_veh_flows.push(default_veh_flow(Dir::PxNy, 1, Dir::PyNx, 2));
        rt_veh_flows.push(default_veh_flow(Dir::PyPx, 1, Dir::NxNy, 1));
        let mut ped_flows: Vec<PedFlow> = Vec::new();
        ped_flows.push(default_ped_flow(Dir::NxPy, Dir::NxNy));
        ped_flows.push(default_ped_flow(Dir::PyNx, Dir::PyPx));
        ped_flows.push(default_ped_flow(Dir::PxPy, Dir::PxNy));
        ped_flows.push(default_ped_flow(Dir::NyNx, Dir::NyPx));
        ped_flows.push(default_ped_flow(Dir::NxNy, Dir::NxPy));
        ped_flows.push(default_ped_flow(Dir::PyPx, Dir::PyNx));
        ped_flows.push(default_ped_flow(Dir::PxNy, Dir::PxPy));
        ped_flows.push(default_ped_flow(Dir::NyPx, Dir::NyNx));
        let mut ig_ped_flows: Vec<PedFlow> = Vec::new();
        ig_ped_flows.push(default_ped_flow(Dir::NxPy, Dir::NxNy));
        ig_ped_flows.push(default_ped_flow(Dir::PyNx, Dir::PyPx));
        ig_ped_flows.push(default_ped_flow(Dir::PxPy, Dir::PxNy));
        ig_ped_flows.push(default_ped_flow(Dir::NyNx, Dir::NyPx));
        ig_ped_flows.push(default_ped_flow(Dir::NxNy, Dir::NxPy));
        ig_ped_flows.push(default_ped_flow(Dir::PyPx, Dir::PyNx));
        ig_ped_flows.push(default_ped_flow(Dir::PxNy, Dir::PxPy));
        ig_ped_flows.push(default_ped_flow(Dir::NyPx, Dir::NyNx));
        let mut veh_signals: Vec<VehSignal> = Vec::new();
        veh_signals.push(default_veh_signal(Dir::NxPy, Dir::PxPy, 0));
        veh_signals.push(default_veh_signal(Dir::PxNy, Dir::NxNy, 0));
        veh_signals.push(default_veh_signal(Dir::NyPx, Dir::PyPx, 120_000_000));
        veh_signals.push(default_veh_signal(Dir::PyNx, Dir::NyNx, 120_000_000));
        let mut ped_signals: Vec<PedSignal> = Vec::new();
        ped_signals.push(default_ped_signal(Dir::NxNy, Dir::NxPy, 120_000_000));
        ped_signals.push(default_ped_signal(Dir::PxNy, Dir::PxPy, 120_000_000));
        ped_signals.push(default_ped_signal(Dir::NyPx, Dir::NyNx, 0));
        ped_signals.push(default_ped_signal(Dir::PyPx, Dir::PyNx, 0));
        Settings {
            angle: 90_000_000,
            radius: 14_000_000,
            width_along: 17_000_000,
            width_across: 17_000_000,
            lane_along,
            lane_across,
            hn_along: 10_000_000,
            hn_across: 10_000_000,
            cw_setback_along: 13_000_000,
            cw_setback_across: 13_000_000,
            cw_width_along: 4_500_000,
            cw_width_across: 4_500_000,
            sl_setback_along: 19_000_000,
            sl_setback_across: 19_000_000,
            lt_veh_flows,
            rt_veh_flows,
            ped_flows,
            ig_ped_flows,
            veh_signals,
            ped_signals,
        }
    }
}

/// One default vehicle flow: 0.1 vehicles per metre, 10 m/s in and out.
fn default_veh_flow(src_dir: Dir, src_lane: usize, dst_dir: Dir, dst_lane: usize) -> (r: VehFlow)
    ensures
        r.src_dir == src_dir,
        r.src_lane == src_lane,
        r.dst_dir == dst_dir,
        r.dst_lane == dst_lane,
        r.density == 100_000,
        r.v_in_mean == 10_000_000,
{
    VehFlow {
        src_dir,
        src_lane,
        dst_dir,
        dst_lane,
        density: 100_000,
        v_in_mean: 10_000_000,
        v_in_stdv: 1_000_000,
        v_out_mean: 10_000_000,
        v_out_stdv: 1_000_000,
        padding_out_mean: 1_750_000,
        padding_out_stdv: 100_000,
        large_prob: 100_000,
    }
}

/// One default pedestrian flow: 0.1 pedestrians per metre, 1 m/s.
fn default_ped_flow(src: Dir, dst: Dir) -> (r: PedFlow)
    ensures
        r.src == src,
        r.dst == dst,
        r.density == 100_000,
        r.v_in_mean == 1_000_000,
{
    PedFlow {
        src,
        dst,
        density: 100_000,
        v_in_mean: 1_000_000,
        v_in_stdv: 100_000,
        x_in_mean: 0,
        x_in_stdv: 100_000,
        d_in_mean: 0,
        d_in_stdv: 100_000,
        diagonal_prob: 100_000,
    }
}

/// One default vehicle signal plan entry: 110 s green, 5 s yellow, 125 s
/// red in a 360 s cycle.
fn default_veh_signal(src_dir: Dir, dst_dir: Dir, offset_us: u64) -> (r: VehSignal)
    ensures
        r.src_dir == src_dir,
        r.dst_dir == dst_dir,
        r.offset_us == offset_us,
        offset_us <= 120_000_000 ==> r.wf(),
{
    VehSignal {
        src_dir,
        dst_dir,
        offset_us,
        green_us: 110_000_000,
        yellow_us: 5_000_000,
        red_us: 125_000_000,
        cycle_us: 360_000_000,
    }
}

/// One default pedestrian signal plan entry: 100 s green, 10 s blink, 130 s
/// red in a 360 s cycle.
fn default_ped_signal(src_dir: Dir, dst_dir: Dir, offset_us: u64) -> (r: PedSignal)
    ensures
        r.src_dir == src_dir,
        r.dst_dir == dst_dir,
        r.offset_us == offset_us,
        offset_us <= 120_000_000 ==> r.wf(),
{
    PedSignal {
        src_dir,
        dst_dir,
        offset_us,
        green_us: 100_000_000,
        blink_us: 10_000_000,
        red_us: 130_000_000,
        cycle_us: 360_000_000,
    }
}

} // verus!
