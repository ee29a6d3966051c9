//! The simulation runtime: signal phases, per-flow arrival schedulers,
//! active-agent pools, and the tick that drives them all.
//!
//! One tick recomputes every movement's phase from elapsed time, runs the
//! countdown-driven spawner of every flow gated by its phase, advances every
//! active agent's step cursor by the whole discretization steps in the tick,
//! removes the agents that ran off the end of their paths, and advances
//! elapsed time.  Randomness enters only through the draw bundles the
//! caller passes in; the tick is verified for every possible bundle.

use vstd::prelude::*;
use crate::crossing::PedDraws;
use crate::crossing::PedOutput;
use crate::crossing::compute_ig_ped;
use crate::crossing::compute_ped;
use crate::crossing::ped_case_of;
use crate::crossing::ped_cw_width_of;
use crate::crossing::ped_iso_spec;
use crate::crossing::ped_sample_ok;
use crate::crossing::ped_width_of;
use crate::fixed::FP_SAT;
use crate::fixed::clamp;
use crate::fixed::in_range;
use crate::fixed::sat_spec;
use crate::fixed::sub_sat;
use crate::fixed::sub_sat_spec;
use crate::profile::STEP_FP;
use crate::profile::Vec2;
use crate::sampler::VehDraws;
use crate::sampler::VehOutput;
use crate::sampler::clamp_draws_spec;
use crate::sampler::compute_lt_veh;
use crate::sampler::compute_rt_veh;
use crate::sampler::lt_geom_of;
use crate::sampler::lt_iso_of;
use crate::sampler::rt_geom_of;
use crate::sampler::rt_iso_of;
use crate::sampler::turn_sample_ok;
use crate::settings::ConfigError;
use crate::settings::PedFlow;
use crate::settings::Settings;
use crate::settings::VehFlow;
use crate::signal::PedSignal;
use crate::signal::PedSignalState;
use crate::signal::VehSignal;
use crate::signal::VehSignalState;

verus! {

/// One active agent: its placed path and the step cursor into it.
#[derive(Clone, PartialEq, Debug)]
pub struct Agent {
    pub path: Vec<Vec2>,
    pub cursor: usize,
}

/// The mathematical image of an agent.
pub struct AgentV {
    pub path: Seq<Vec2>,
    pub cursor: int,
}

/// The view of an agent.
pub open spec fn agent_view(a: Agent) -> AgentV {
    AgentV { path: a.path@, cursor: a.cursor as int }
}

/// The view of an agent pool.
pub open spec fn pool_view(agents: Seq<Agent>) -> Seq<AgentV> {
    Seq::new(agents.len(), |i: int| agent_view(agents[i]))
}

/// An agent whose cursor still points into its path.
pub open spec fn agent_wf(a: Agent) -> bool {
    a.cursor < a.path@.len()
}

/// The runtime state of one flow: the spawn countdown in microseconds and
/// the flow's active agents.
#[derive(Clone, PartialEq, Debug)]
pub struct FlowState {
    pub next_spawn_us: i64,
    pub agents: Vec<Agent>,
}

/// A well-formed flow state: bounded countdown, every agent well-formed.
pub open spec fn flow_state_wf(fs: FlowState) -> bool {
    &&& in_range(fs.next_spawn_us as int)
    &&& forall|i: int| 0 <= i < fs.agents@.len() ==> agent_wf(#[trigger] fs.agents@[i])
}

/// The per-tick draw bundle of one vehicle flow.
#[derive(Clone, Copy, PartialEq, Eq, Structural, Debug)]
pub struct VehTickDraw {
    pub sample: VehDraws,
    pub exp_us: i64,
}

/// The per-tick draw bundle of one pedestrian flow.
#[derive(Clone, Copy, PartialEq, Eq, Structural, Debug)]
pub struct PedTickDraw {
    pub sample: PedDraws,
    pub exp_us: i64,
}

/// Everything one tick may draw: one bundle per configured flow, consumed
/// only when that flow attempts a spawn.
#[derive(Clone, PartialEq, Debug)]
pub struct TickDraws {
    pub lt: Vec<VehTickDraw>,
    pub rt: Vec<VehTickDraw>,
    pub ped: Vec<PedTickDraw>,
    pub ig: Vec<PedTickDraw>,
}

/// The pool after one tick: every agent advanced by `steps` cursor
/// increments, in order, keeping exactly those whose cursor stays strictly
/// inside their path.
pub open spec fn step_pool(pool: Seq<AgentV>, steps: int) -> Seq<AgentV>
    decreases pool.len(),
{
    if pool.len() == 0 {
        Seq::empty()
    } else {
        let a = pool[0];
        let tail = step_pool(pool.subrange(1, pool.len() as int), steps);
        if a.cursor + steps < a.path.len() {
            seq![AgentV { path: a.path, cursor: a.cursor + steps }] + tail
        } else {
            tail
        }
    }
}

/// The step cursor a freshly sampled turning vehicle starts at: the path
/// is entered at its origin time, in whole discretization steps.  A
/// negative origin time enters at the path's start; a cursor at or past the
/// end expires on the spawning tick.
pub open spec fn veh_entry_cursor(out: VehOutput) -> int {
    let raw = if out.t_o < 0 {
        0
    } else {
        (out.t_o as int) / (STEP_FP as int)
    };
    if raw > out.trajectory_series@.len() {
        out.trajectory_series@.len() as int
    } else {
        raw
    }
}

/// A freshly spawned vehicle agent: the placed trajectory of an output that
/// the turning sampler admits for the draws, entered at its origin-time
/// step cursor.
pub open spec fn veh_spawn_ok(
    d: VehDraws,
    g: crate::clothoid::ClothoidGeom,
    left: bool,
    iso: crate::path::Iso,
    a: AgentV,
) -> bool {
    exists|out: VehOutput|
        #[trigger] turn_sample_ok(d, g, left, iso, out) && a.path == out.trajectory_series@
            && a.cursor == veh_entry_cursor(out)
}

/// A freshly spawned pedestrian agent.
pub open spec fn ped_spawn_ok(
    d: PedDraws,
    width: int,
    cw_width: int,
    iso: crate::path::Iso,
    a: AgentV,
) -> bool {
    &&& a.cursor == 0
    &&& exists|out: PedOutput|
        #[trigger] ped_sample_ok(d, width, cw_width, iso, out) && a.path
            == out.trajectory_series@
}

/// How one vehicle flow's state evolves over a tick: the countdown drops by
/// the tick; at or below zero with an open gate the flow attempts a spawn —
/// adding an admissible agent exactly when the drawn geometry is feasible —
/// and re-arms from the drawn exponential; then every agent advances and
/// the finished ones leave, in order.
pub open spec fn veh_flow_rel(
    s: Settings,
    f: VehFlow,
    left: bool,
    gate_open: bool,
    draw: VehTickDraw,
    delta: int,
    old_fs: FlowState,
    new_fs: FlowState,
) -> bool {
    let d = clamp_draws_spec(draw.sample);
    if left {
        veh_flow_core(d, lt_geom_of(s, f, d), lt_iso_of(s, f, d), true, gate_open, draw, delta, old_fs, new_fs)
    } else {
        veh_flow_core(d, rt_geom_of(s, f, d), rt_iso_of(s, f, d), false, gate_open, draw, delta, old_fs, new_fs)
    }
}

/// The common vehicle-flow transition over the already-derived geometry and
/// frame transform.
pub open spec fn veh_flow_core(
    d: VehDraws,
    g: crate::clothoid::ClothoidGeom,
    iso: crate::path::Iso,
    left: bool,
    gate_open: bool,
    draw: VehTickDraw,
    delta: int,
    old_fs: FlowState,
    new_fs: FlowState,
) -> bool {
    let cd1 = sub_sat_spec(old_fs.next_spawn_us as int, delta);
    let attempt = cd1 <= 0 && gate_open;
    let steps = delta / (STEP_FP as int);
    &&& new_fs.next_spawn_us as int == if attempt {
        sat_spec(draw.exp_us as int)
    } else {
        cd1
    }
    &&& if attempt && g.l_arc >= 0 {
        exists|a: AgentV|
            #[trigger] veh_spawn_ok(d, g, left, iso, a) && pool_view(new_fs.agents@) == step_pool(
                pool_view(old_fs.agents@).push(a),
                steps,
            )
    } else {
        pool_view(new_fs.agents@) == step_pool(pool_view(old_fs.agents@), steps)
    }
}

/// How one pedestrian flow's state evolves over a tick.  Crossing samples
/// always succeed, so an attempt always adds an agent.
pub open spec fn ped_flow_rel(
    s: Settings,
    f: PedFlow,
    gate_open: bool,
    draw: PedTickDraw,
    delta: int,
    old_fs: FlowState,
    new_fs: FlowState,
) -> bool {
    let d = crate::crossing::clamp_ped_draws_spec(draw.sample);
    let case = ped_case_of(f);
    let width = ped_width_of(s, case);
    let cw_width = ped_cw_width_of(s, case);
    let iso = ped_iso_spec(
        s,
        case,
        crate::sampler::settings_rot_c(s),
        crate::sampler::settings_rot_s(s),
    );
    let cd1 = sub_sat_spec(old_fs.next_spawn_us as int, delta);
    let attempt = cd1 <= 0 && gate_open;
    let steps = delta / (STEP_FP as int);
    &&& new_fs.next_spawn_us as int == if attempt {
        sat_spec(draw.exp_us as int)
    } else {
        cd1
    }
    &&& if attempt {
        exists|a: AgentV|
            #[trigger] ped_spawn_ok(d, width, cw_width, iso, a) && pool_view(new_fs.agents@)
                == step_pool(pool_view(old_fs.agents@).push(a), steps)
    } else {
        pool_view(new_fs.agents@) == step_pool(pool_view(old_fs.agents@), steps)
    }
}


/// Packages the tick facts of one vehicle flow into [`veh_flow_rel`],
/// taking the freshly spawned agent (if any) as an explicit witness.
proof fn lemma_veh_rel_intro(
    s: Settings,
    f: VehFlow,
    left: bool,
    gate_open: bool,
    draw: VehTickDraw,
    delta: int,
    old_fs: FlowState,
    new_fs: FlowState,
    spawned: Option<AgentV>,
)
    requires
        ({
            let d = clamp_draws_spec(draw.sample);
            let g = if left {
                lt_geom_of(s, f, d)
            } else {
                rt_geom_of(s, f, d)
            };
            let iso = if left {
                lt_iso_of(s, f, d)
            } else {
                rt_iso_of(s, f, d)
            };
            let cd1 = sub_sat_spec(old_fs.next_spawn_us as int, delta);
            let attempt = cd1 <= 0 && gate_open;
            let steps = delta / (STEP_FP as int);
            &&& new_fs.next_spawn_us as int == if attempt {
                sat_spec(draw.exp_us as int)
            } else {
                cd1
            }
            &&& if attempt && g.l_arc >= 0 {
                &&& spawned.is_some()
                &&& veh_spawn_ok(d, g, left, iso, spawned.unwrap())
                &&& pool_view(new_fs.agents@) == step_pool(
                    pool_view(old_fs.agents@).push(spawned.unwrap()),
                    steps,
                )
            } else {
                pool_view(new_fs.agents@) == step_pool(pool_view(old_fs.agents@), steps)
            }
        }),
    ensures
        veh_flow_rel(s, f, left, gate_open, draw, delta, old_fs, new_fs),
{
    let d = clamp_draws_spec(draw.sample);
    let g = if left {
        lt_geom_of(s, f, d)
    } else {
        rt_geom_of(s, f, d)
    };
    let iso = if left {
        lt_iso_of(s, f, d)
    } else {
        rt_iso_of(s, f, d)
    };
    let cd1 = sub_sat_spec(old_fs.next_spawn_us as int, delta);
    let attempt = cd1 <= 0 && gate_open;
    let steps = delta / (STEP_FP as int);
    if attempt && g.l_arc >= 0 {
        let a = spawned.unwrap();
        assert(exists|a2: AgentV|
            #[trigger] veh_spawn_ok(d, g, left, iso, a2) && pool_view(new_fs.agents@) == step_pool(
                pool_view(old_fs.agents@).push(a2),
                steps,
            ));
    }
    assert(veh_flow_core(d, g, iso, left, gate_open, draw, delta, old_fs, new_fs));
}

/// Packages the tick facts of one pedestrian flow into [`ped_flow_rel`].
proof fn lemma_ped_rel_intro(
    s: Settings,
    f: PedFlow,
    gate_open: bool,
    draw: PedTickDraw,
    delta: int,
    old_fs: FlowState,
    new_fs: FlowState,
    spawned: Option<AgentV>,
)
    requires
        ({
            let d = crate::crossing::clamp_ped_draws_spec(draw.sample);
            let case = ped_case_of(f);
            let width = ped_width_of(s, case);
            let cw_width = ped_cw_width_of(s, case);
            let iso = ped_iso_spec(
                s,
                case,
                crate::sampler::settings_rot_c(s),
                crate::sampler::settings_rot_s(s),
            );
            let cd1 = sub_sat_spec(old_fs.next_spawn_us as int, delta);
            let attempt = cd1 <= 0 && gate_open;
            let steps = delta / (STEP_FP as int);
            &&& new_fs.next_spawn_us as int == if attempt {
                sat_spec(draw.exp_us as int)
            } else {
                cd1
            }
            &&& if attempt {
                &&& spawned.is_some()
                &&& ped_spawn_ok(d, width, cw_width, iso, spawned.unwrap())
                &&& pool_view(new_fs.agents@) == step_pool(
                    pool_view(old_fs.agents@).push(spawned.unwrap()),
                    steps,
                )
            } else {
                pool_view(new_fs.agents@) == step_pool(pool_view(old_fs.agents@), steps)
            }
        }),
    ensures
        ped_flow_rel(s, f, gate_open, draw, delta, old_fs, new_fs),
{
    let d = crate::crossing::clamp_ped_draws_spec(draw.sample);
    let case = ped_case_of(f);
    let width = ped_width_of(s, case);
    let cw_width = ped_cw_width_of(s, case);
    let iso = ped_iso_spec(
        s,
        case,
        crate::sampler::settings_rot_c(s),
        crate::sampler::settings_rot_s(s),
    );
    let cd1 = sub_sat_spec(old_fs.next_spawn_us as int, delta);
    let attempt = cd1 <= 0 && gate_open;
    let steps = delta / (STEP_FP as int);
    if attempt {
        let a = spawned.unwrap();
        assert(exists|a2: AgentV|
            #[trigger] ped_spawn_ok(d, width, cw_width, iso, a2) && pool_view(new_fs.agents@)
                == step_pool(pool_view(old_fs.agents@).push(a2), steps));
    }
}

/// Advances every agent by `steps` cursor increments and removes, in order,
/// those that reach or pass the end of their paths.
fn step_agents(agents: Vec<Agent>, steps: u64) -> (r: Vec<Agent>)
    requires
        forall|i: int|
            0 <= i < agents@.len() ==> (#[trigger] agents@[i]).cursor <= agents@[i].path@.len(),
    ensures
        pool_view(r@) == step_pool(pool_view(agents@), steps as int),
        forall|i: int| 0 <= i < r@.len() ==> agent_wf(#[trigger] r@[i]),
{
    let ghost full = pool_view(agents@);
    let mut rest = agents;
    let mut kept: Vec<Agent> = Vec::new();
    proof {
        assert(pool_view(kept@) =~= Seq::<AgentV>::empty());
        assert(Seq::<AgentV>::empty() + step_pool(pool_view(rest@), steps as int) =~= step_pool(
            pool_view(rest@),
            steps as int,
        ));
    }
    while rest.len() > 0
        invariant
            forall|j: int|
                0 <= j < rest@.len() ==> (#[trigger] rest@[j]).cursor <= rest@[j].path@.len(),
            forall|j: int| 0 <= j < kept@.len() ==> agent_wf(#[trigger] kept@[j]),
            step_pool(full, steps as int) == pool_view(kept@) + step_pool(
                pool_view(rest@),
                steps as int,
            ),
        decreases rest@.len(),
    {
        let ghost pre = pool_view(rest@);
        let a = rest.remove(0);
        proof {
            assert(pre.len() > 0);
            assert(pre[0] == agent_view(a));
            assert(pre.subrange(1, pre.len() as int) =~= pool_view(rest@));
        }
        let remaining: usize = a.path.len() - a.cursor;
        if steps < remaining as u64 {
            let nc: usize = a.cursor + (steps as usize);
            let moved = Agent { path: a.path, cursor: nc };
            let ghost kept_pre = pool_view(kept@);
            kept.push(moved);
            proof {
                assert(pool_view(kept@) =~= kept_pre.push(agent_view(moved)));
                assert(agent_view(moved) == (AgentV {
                    path: pre[0].path,
                    cursor: pre[0].cursor + steps as int,
                }));
                assert(kept_pre.push(agent_view(moved)) + step_pool(pool_view(rest@), steps as int)
                    =~= kept_pre + (seq![agent_view(moved)] + step_pool(
                    pool_view(rest@),
                    steps as int,
                )));
            }
        } else {
            proof {
                assert(!(pre[0].cursor + steps < pre[0].path.len()));
            }
        }
    }
    proof {
        assert(pool_view(rest@) =~= Seq::<AgentV>::empty());
        assert(step_pool(Seq::<AgentV>::empty(), steps as int) =~= Seq::<AgentV>::empty());
        assert(pool_view(kept@) + Seq::<AgentV>::empty() =~= pool_view(kept@));
    }
    kept
}

/// Computes the phase of every vehicle signal plan entry at elapsed time
/// `t`.
fn compute_veh_phases(plans: &Vec<VehSignal>, t: u64) -> (r: Vec<VehSignalState>)
    requires
        forall|i: int| 0 <= i < plans@.len() ==> (#[trigger] plans@[i]).wf(),
    ensures
        r@.len() == plans@.len(),
        forall|i: int|
            0 <= i < plans@.len() ==> #[trigger] r@[i] == plans@[i].phase_spec(t as int),
{
    let n = plans.len();
    let mut out: Vec<VehSignalState> = Vec::new();
    let mut i: usize = 0;
    while i < n
        invariant
            n == plans@.len(),
            forall|j: int| 0 <= j < plans@.len() ==> (#[trigger] plans@[j]).wf(),
            i <= n,
            out@.len() == i,
            forall|j: int| 0 <= j < i ==> #[trigger] out@[j] == plans@[j].phase_spec(t as int),
        decreases n - i,
    {
        let p = plans[i].phase_at(t);
        out.push(p);
        i = i + 1;
    }
    out
}

/// Computes the phase of every pedestrian signal plan entry at elapsed time
/// `t`.
fn compute_ped_phases(plans: &Vec<PedSignal>, t: u64) -> (r: Vec<PedSignalState>)
    requires
        forall|i: int| 0 <= i < plans@.len() ==> (#[trigger] plans@[i]).wf(),
    ensures
        r@.len() == plans@.len(),
        forall|i: int|
            0 <= i < plans@.len() ==> #[trigger] r@[i] == plans@[i].phase_spec(t as int),
{
    let n = plans.len();
    let mut out: Vec<PedSignalState> = Vec::new();
    let mut i: usize = 0;
    while i < n
        invariant
            n == plans@.len(),
            forall|j: int| 0 <= j < plans@.len() ==> (#[trigger] plans@[j]).wf(),
            i <= n,
            out@.len() == i,
            forall|j: int| 0 <= j < i ==> #[trigger] out@[j] == plans@[j].phase_spec(t as int),
        decreases n - i,
    {
        let p = plans[i].phase_at(t);
        out.push(p);
        i = i + 1;
    }
    out
}


/// Computes the step cursor a freshly sampled turning vehicle enters at,
/// clamped into its path.
fn entry_cursor(out: &VehOutput) -> (r: usize)
    ensures
        r as int == veh_entry_cursor(*out),
        r <= out.trajectory_series@.len(),
{
    let len = out.trajectory_series.len();
    if out.t_o < 0 {
        0
    } else {
        let raw: u64 = (out.t_o as u64) / 10_000;
        if raw > len as u64 {
            len
        } else {
            raw as usize
        }
    }
}

/// Runs the arrival scheduler and agent stepping of every flow in one
/// vehicle category.
#[verifier::rlimit(100)]
#[verifier::spinoff_prover]
fn run_veh_flows(
    s: &Settings,
    flows: &Vec<VehFlow>,
    left: bool,
    states: &mut Vec<FlowState>,
    sig: &Vec<usize>,
    phases: &Vec<VehSignalState>,
    draws_v: &Vec<VehTickDraw>,
    delta_us: u64,
)
    requires
        s.geom_wf(),
        if left {
            forall|i: int| 0 <= i < flows@.len() ==> s.lt_flow_wf(#[trigger] flows@[i])
        } else {
            forall|i: int| 0 <= i < flows@.len() ==> s.rt_flow_wf(#[trigger] flows@[i])
        },
        old(states)@.len() == flows@.len(),
        sig@.len() == flows@.len(),
        draws_v@.len() == flows@.len(),
        forall|i: int| 0 <= i < sig@.len() ==> (#[trigger] sig@[i]) < phases@.len(),
        forall|i: int| 0 <= i < old(states)@.len() ==> flow_state_wf(#[trigger] old(states)@[i]),
        delta_us <= FP_SAT as u64,
    ensures
        final(states)@.len() == flows@.len(),
        forall|i: int|
            0 <= i < flows@.len() ==> veh_flow_rel(
                *s,
                flows@[i],
                left,
                phases@[sig@[i] as int] != VehSignalState::Red,
                draws_v@[i],
                delta_us as int,
                old(states)@[i],
                #[trigger] final(states)@[i],
            ),
        forall|i: int| 0 <= i < final(states)@.len() ==> flow_state_wf(#[trigger] final(states)@[i]),
{
    let n = flows.len();
    let delta_i: i64 = delta_us as i64;
    let steps: u64 = delta_us / 10_000;
    let mut i: usize = 0;
    while i < n
        invariant
            s.geom_wf(),
            if left {
                forall|j: int| 0 <= j < flows@.len() ==> s.lt_flow_wf(#[trigger] flows@[j])
            } else {
                forall|j: int| 0 <= j < flows@.len() ==> s.rt_flow_wf(#[trigger] flows@[j])
            },
            n == flows@.len(),
            sig@.len() == flows@.len(),
            draws_v@.len() == flows@.len(),
            forall|j: int| 0 <= j < sig@.len() ==> (#[trigger] sig@[j]) < phases@.len(),
            delta_us <= FP_SAT as u64,
            delta_i == delta_us as i64,
            steps == delta_us as int / 10_000,
            i <= n,
            states@.len() == n,
            old(states)@.len() == n,
            forall|j: int| i <= j < n ==> #[trigger] states@[j] == old(states)@[j],
            forall|j: int| 0 <= j < old(states)@.len() ==> flow_state_wf(#[trigger] old(states)@[j]),
            forall|j: int| 0 <= j < states@.len() ==> flow_state_wf(#[trigger] states@[j]),
            forall|j: int|
                0 <= j < i ==> veh_flow_rel(
                    *s,
                    flows@[j],
                    left,
                    phases@[sig@[j] as int] != VehSignalState::Red,
                    draws_v@[j],
                    delta_us as int,
                    old(states)@[j],
                    #[trigger] states@[j],
                ),
        decreases n - i,
    {
        let ghost pre = states@;
        let st = states.remove(i);
        let gate = match phases[sig[i]] {
            VehSignalState::Red => false,
            _ => true,
        };
        let mut next = sub_sat(st.next_spawn_us, delta_i);
        let mut agents = st.agents;
        let ghost old_pool = pool_view(agents@);
        let ghost mut spawned: Option<AgentV> = None;
        let attempt = next <= 0 && gate;
        if attempt {
            let fl = &flows[i];
            let dv = &draws_v[i];
            let r = if left {
                compute_lt_veh(s, fl, &dv.sample)
            } else {
                compute_rt_veh(s, fl, &dv.sample)
            };
            match r {
                Some(out) => {
                    let ghost gout = out;
                    let cursor = entry_cursor(&out);
                    let fresh = Agent { path: out.trajectory_series, cursor };
                    proof {
                        spawned = Some(agent_view(fresh));
                        let d = clamp_draws_spec(draws_v@[i as int].sample);
                        let g = if left {
                            lt_geom_of(*s, flows@[i as int], d)
                        } else {
                            rt_geom_of(*s, flows@[i as int], d)
                        };
                        let iso = if left {
                            lt_iso_of(*s, flows@[i as int], d)
                        } else {
                            rt_iso_of(*s, flows@[i as int], d)
                        };
                        assert(turn_sample_ok(d, g, left, iso, gout));
                        assert(agent_view(fresh).path == gout.trajectory_series@);
                        assert(agent_view(fresh).cursor == veh_entry_cursor(gout));
                        assert(veh_spawn_ok(d, g, left, iso, agent_view(fresh)));
                    }
                    let ghost pool_before = pool_view(agents@);
                    agents.push(fresh);
                    proof {
                        assert(pool_view(agents@) =~= pool_before.push(agent_view(fresh)));
                    }
                },
                None => {},
            }
            next = clamp(dv.exp_us, -FP_SAT, FP_SAT);
        }
        let stepped = step_agents(agents, steps);
        let new_fs = FlowState { next_spawn_us: next, agents: stepped };
        states.insert(i, new_fs);
        proof {
            assert(states@ =~= pre.update(i as int, new_fs));
            lemma_veh_rel_intro(
                *s,
                flows@[i as int],
                left,
                phases@[sig@[i as int] as int] != VehSignalState::Red,
                draws_v@[i as int],
                delta_us as int,
                old(states)@[i as int],
                new_fs,
                spawned,
            );
            assert(states@[i as int] == new_fs);
        }
        i = i + 1;
    }
}

/// Runs the arrival scheduler and agent stepping of every flow in one
/// pedestrian category; spawning is permitted during the given phase
/// (`Green` for ordinary crossings, `Blink` for inter-green ones).
#[verifier::rlimit(100)]
#[verifier::spinoff_prover]
fn run_ped_flows(
    s: &Settings,
    flows: &Vec<PedFlow>,
    inter_green: bool,
    want: PedSignalState,
    states: &mut Vec<FlowState>,
    sig: &Vec<usize>,
    phases: &Vec<PedSignalState>,
    draws_v: &Vec<PedTickDraw>,
    delta_us: u64,
)
    requires
        s.geom_wf(),
        forall|i: int| 0 <= i < flows@.len() ==> Settings::ped_flow_wf(#[trigger] flows@[i]),
        old(states)@.len() == flows@.len(),
        sig@.len() == flows@.len(),
        draws_v@.len() == flows@.len(),
        forall|i: int| 0 <= i < sig@.len() ==> (#[trigger] sig@[i]) < phases@.len(),
        forall|i: int| 0 <= i < old(states)@.len() ==> flow_state_wf(#[trigger] old(states)@[i]),
        delta_us <= FP_SAT as u64,
    ensures
        final(states)@.len() == flows@.len(),
        forall|i: int|
            0 <= i < flows@.len() ==> ped_flow_rel(
                *s,
                flows@[i],
                phases@[sig@[i] as int] == want,
                draws_v@[i],
                delta_us as int,
                old(states)@[i],
                #[trigger] final(states)@[i],
            ),
        forall|i: int| 0 <= i < final(states)@.len() ==> flow_state_wf(#[trigger] final(states)@[i]),
{
    let n = flows.len();
    let delta_i: i64 = delta_us as i64;
    let steps: u64 = delta_us / 10_000;
    let mut i: usize = 0;
    while i < n
        invariant
            s.geom_wf(),
            forall|j: int| 0 <= j < flows@.len() ==> Settings::ped_flow_wf(#[trigger] flows@[j]),
            n == flows@.len(),
            sig@.len() == flows@.len(),
            draws_v@.len() == flows@.len(),
            forall|j: int| 0 <= j < sig@.len() ==> (#[trigger] sig@[j]) < phases@.len(),
            delta_us <= FP_SAT as u64,
            delta_i == delta_us as i64,
            steps == delta_us as int / 10_000,
            i <= n,
            states@.len() == n,
            old(states)@.len() == n,
            forall|j: int| i <= j < n ==> #[trigger] states@[j] == old(states)@[j],
            forall|j: int| 0 <= j < old(states)@.len() ==> flow_state_wf(#[trigger] old(states)@[j]),
            forall|j: int| 0 <= j < states@.len() ==> flow_state_wf(#[trigger] states@[j]),
            forall|j: int|
                0 <= j < i ==> ped_flow_rel(
                    *s,
                    flows@[j],
                    phases@[sig@[j] as int] == want,
                    draws_v@[j],
                    delta_us as int,
                    old(states)@[j],
                    #[trigger] states@[j],
                ),
        decreases n - i,
    {
        let ghost pre = states@;
        let st = states.remove(i);
        let gate = phases[sig[i]] == want;
        let mut next = sub_sat(st.next_spawn_us, delta_i);
        let mut agents = st.agents;
        let ghost mut spawned: Option<AgentV> = None;
        let attempt = next <= 0 && gate;
        if attempt {
            let fl = &flows[i];
            let dv = &draws_v[i];
            let r = if inter_green {
                compute_ig_ped(s, fl, &dv.sample)
            } else {
                compute_ped(s, fl, &dv.sample)
            };
            match r {
                Some(out) => {
                    let ghost gout = out;
                    let fresh = Agent { path: out.trajectory_series, cursor: 0 };
                    proof {
                        spawned = Some(agent_view(fresh));
                        let d = crate::crossing::clamp_ped_draws_spec(draws_v@[i as int].sample);
                        let case = ped_case_of(flows@[i as int]);
                        let width = ped_width_of(*s, case);
                        let cw_width = ped_cw_width_of(*s, case);
                        let iso = ped_iso_spec(
                            *s,
                            case,
                            crate::sampler::settings_rot_c(*s),
                            crate::sampler::settings_rot_s(*s),
                        );
                        assert(ped_sample_ok(d, width, cw_width, iso, gout));
                        assert(ped_spawn_ok(d, width, cw_width, iso, agent_view(fresh)));
                    }
                    let ghost pool_before = pool_view(agents@);
                    agents.push(fresh);
                    proof {
                        assert(pool_view(agents@) =~= pool_before.push(agent_view(fresh)));
                    }
                },
                None => {
                    proof {
                        assert(false);
                    }
                },
            }
            next = clamp(dv.exp_us, -FP_SAT, FP_SAT);
        }
        let stepped = step_agents(agents, steps);
        let new_fs = FlowState { next_spawn_us: next, agents: stepped };
        states.insert(i, new_fs);
        proof {
            assert(states@ =~= pre.update(i as int, new_fs));
            lemma_ped_rel_intro(
                *s,
                flows@[i as int],
                phases@[sig@[i as int] as int] == want,
                draws_v@[i as int],
                delta_us as int,
                old(states)@[i as int],
                new_fs,
                spawned,
            );
            assert(states@[i as int] == new_fs);
        }
        i = i + 1;
    }
}


/// The whole simulation state: the immutable configuration, the phase of
/// every movement, elapsed time, and the runtime state of every flow, with
/// the load-time association from each flow to its signal plan entry.
#[derive(Clone, PartialEq, Debug)]
pub struct Forward {
    pub settings: Settings,
    pub veh_signals: Vec<VehSignalState>,
    pub ped_signals: Vec<PedSignalState>,
    pub elapsed_us: u64,
    pub lt_states: Vec<FlowState>,
    pub rt_states: Vec<FlowState>,
    pub ped_states: Vec<FlowState>,
    pub ig_states: Vec<FlowState>,
    pub lt_sig: Vec<usize>,
    pub rt_sig: Vec<usize>,
    pub ped_sig: Vec<usize>,
    pub ig_sig: Vec<usize>,
}

impl Forward {
    /// A well-formed runtime: valid configuration, phase vectors parallel
    /// to the signal plans, one runtime state per flow (all well-formed),
    /// and a signal association that points every flow at a plan entry for
    /// its movement.
    pub open spec fn wf(self) -> bool {
        &&& self.settings.wf()
        &&& self.veh_signals@.len() == self.settings.veh_signals@.len()
        &&& self.ped_signals@.len() == self.settings.ped_signals@.len()
        &&& self.lt_states@.len() == self.settings.lt_veh_flows@.len()
        &&& self.rt_states@.len() == self.settings.rt_veh_flows@.len()
        &&& self.ped_states@.len() == self.settings.ped_flows@.len()
        &&& self.ig_states@.len() == self.settings.ig_ped_flows@.len()
        &&& forall|i: int|
            0 <= i < self.lt_states@.len() ==> flow_state_wf(#[trigger] self.lt_states@[i])
        &&& forall|i: int|
            0 <= i < self.rt_states@.len() ==> flow_state_wf(#[trigger] self.rt_states@[i])
        &&& forall|i: int|
            0 <= i < self.ped_states@.len() ==> flow_state_wf(#[trigger] self.ped_states@[i])
        &&& forall|i: int|
            0 <= i < self.ig_states@.len() ==> flow_state_wf(#[trigger] self.ig_states@[i])
        &&& self.lt_sig@.len() == self.settings.lt_veh_flows@.len()
        &&& self.rt_sig@.len() == self.settings.rt_veh_flows@.len()
        &&& self.ped_sig@.len() == self.settings.ped_flows@.len()
        &&& self.ig_sig@.len() == self.settings.ig_ped_flows@.len()
        &&& forall|i: int|
            0 <= i < self.lt_sig@.len() ==> (#[trigger] self.lt_sig@[i]) < self.settings.veh_signals@.len()
                && self.settings.veh_signals@[self.lt_sig@[i] as int].src_dir
                == self.settings.lt_veh_flows@[i].src_dir
                && self.settings.veh_signals@[self.lt_sig@[i] as int].dst_dir
                == self.settings.lt_veh_flows@[i].dst_dir
        &&& forall|i: int|
            0 <= i < self.rt_sig@.len() ==> (#[trigger] self.rt_sig@[i]) < self.settings.veh_signals@.len()
                && self.settings.veh_signals@[self.rt_sig@[i] as int].src_dir
                == self.settings.rt_veh_flows@[i].src_dir
                && self.settings.veh_signals@[self.rt_sig@[i] as int].dst_dir
                == self.settings.rt_veh_flows@[i].dst_dir
        &&& forall|i: int|
            0 <= i < self.ped_sig@.len() ==> (#[trigger] self.ped_sig@[i]) < self.settings.ped_signals@.len()
                && covers_ped(
                self.settings.ped_signals@[self.ped_sig@[i] as int],
                self.settings.ped_flows@[i],
            )
        &&& forall|i: int|
            0 <= i < self.ig_sig@.len() ==> (#[trigger] self.ig_sig@[i]) < self.settings.ped_signals@.len()
                && covers_ped(
                self.settings.ped_signals@[self.ig_sig@[i] as int],
                self.settings.ig_ped_flows@[i],
            )
    }

    /// Whether left-turn flow `i` may spawn at the runtime's elapsed
    /// time: its movement's phase is anything but Red.
    pub open spec fn lt_gate(self, i: int) -> bool {
        self.settings.veh_signals@[self.lt_sig@[i] as int].phase_spec(self.elapsed_us as int)
            != VehSignalState::Red
    }

    /// Whether right-turn flow `i` may spawn.
    pub open spec fn rt_gate(self, i: int) -> bool {
        self.settings.veh_signals@[self.rt_sig@[i] as int].phase_spec(self.elapsed_us as int)
            != VehSignalState::Red
    }

    /// Whether crossing flow `i` may spawn: its phase is Green.
    pub open spec fn ped_gate(self, i: int) -> bool {
        self.settings.ped_signals@[self.ped_sig@[i] as int].phase_spec(self.elapsed_us as int)
            == PedSignalState::Green
    }

    /// Whether inter-green crossing flow `i` may spawn: its phase is
    /// Blink.
    pub open spec fn ig_gate(self, i: int) -> bool {
        self.settings.ped_signals@[self.ig_sig@[i] as int].phase_spec(self.elapsed_us as int)
            == PedSignalState::Blink
    }
}

/// Whether a pedestrian signal plan entry covers a crossing flow's
/// movement, walked in either direction.
pub open spec fn covers_ped(sig: PedSignal, f: PedFlow) -> bool {
    sig.src_dir == f.src && sig.dst_dir == f.dst || sig.src_dir == f.dst && sig.dst_dir == f.src
}

/// Builds the flow-to-signal association of one vehicle flow list.
fn build_veh_sig(s: &Settings, flows: &Vec<VehFlow>) -> (r: Vec<usize>)
    requires
        forall|i: int|
            0 <= i < flows@.len() ==> s.has_veh_signal(
                (#[trigger] flows@[i]).src_dir,
                flows@[i].dst_dir,
            ),
    ensures
        r@.len() == flows@.len(),
        forall|i: int|
            0 <= i < flows@.len() ==> (#[trigger] r@[i]) < s.veh_signals@.len()
                && s.veh_signals@[r@[i] as int].src_dir == flows@[i].src_dir
                && s.veh_signals@[r@[i] as int].dst_dir == flows@[i].dst_dir,
{
    let n = flows.len();
    let mut out: Vec<usize> = Vec::new();
    let mut i: usize = 0;
    while i < n
        invariant
            n == flows@.len(),
            forall|j: int|
                0 <= j < flows@.len() ==> s.has_veh_signal(
                    (#[trigger] flows@[j]).src_dir,
                    flows@[j].dst_dir,
                ),
            i <= n,
            out@.len() == i,
            forall|j: int|
                0 <= j < i ==> (#[trigger] out@[j]) < s.veh_signals@.len()
                    && s.veh_signals@[out@[j] as int].src_dir == flows@[j].src_dir
                    && s.veh_signals@[out@[j] as int].dst_dir == flows@[j].dst_dir,
        decreases n - i,
    {
        let f = &flows[i];
        match s.find_veh_signal(f.src_dir, f.dst_dir) {
            Some(k) => {
                out.push(k);
            },
            None => {
                proof {
                    assert(false);
                }
            },
        }
        i = i + 1;
    }
    out
}

/// Builds the flow-to-signal association of one pedestrian flow list.
fn build_ped_sig(s: &Settings, flows: &Vec<PedFlow>) -> (r: Vec<usize>)
    requires
        forall|i: int|
            0 <= i < flows@.len() ==> s.has_ped_signal((#[trigger] flows@[i]).src, flows@[i].dst),
    ensures
        r@.len() == flows@.len(),
        forall|i: int|
            0 <= i < flows@.len() ==> (#[trigger] r@[i]) < s.ped_signals@.len() && covers_ped(
                s.ped_signals@[r@[i] as int],
                flows@[i],
            ),
{
    let n = flows.len();
    let mut out: Vec<usize> = Vec::new();
    let mut i: usize = 0;
    while i < n
        invariant
            n == flows@.len(),
            forall|j: int|
                0 <= j < flows@.len() ==> s.has_ped_signal(
                    (#[trigger] flows@[j]).src,
                    flows@[j].dst,
                ),
            i <= n,
            out@.len() == i,
            forall|j: int|
                0 <= j < i ==> (#[trigger] out@[j]) < s.ped_signals@.len() && covers_ped(
                    s.ped_signals@[out@[j] as int],
                    flows@[j],
                ),
        decreases n - i,
    {
        let f = &flows[i];
        match s.find_ped_signal(f.src, f.dst) {
            Some(k) => {
                out.push(k);
            },
            None => {
                proof {
                    assert(false);
                }
            },
        }
        i = i + 1;
    }
    out
}

/// Builds `n` idle flow states: countdown zero, no agents.
fn init_states(n: usize) -> (r: Vec<FlowState>)
    ensures
        r@.len() == n,
        forall|i: int|
            0 <= i < n as int ==> (#[trigger] r@[i]).next_spawn_us == 0 && r@[i].agents@.len()
                == 0,
        forall|i: int| 0 <= i < n as int ==> flow_state_wf(#[trigger] r@[i]),
{
    let mut out: Vec<FlowState> = Vec::new();
    let mut i: usize = 0;
    while i < n
        invariant
            i <= n,
            out@.len() == i,
            forall|j: int|
                0 <= j < i ==> (#[trigger] out@[j]).next_spawn_us == 0 && out@[j].agents@.len()
                    == 0,
            forall|j: int| 0 <= j < i ==> flow_state_wf(#[trigger] out@[j]),
        decreases n - i,
    {
        out.push(FlowState { next_spawn_us: 0, agents: Vec::new() });
        i = i + 1;
    }
    out
}

impl Forward {
    /// Builds a runtime from a configuration.  Fails exactly on invalid
    /// configurations (see [`Settings::validate`]); on success the runtime
    /// starts at elapsed time zero with the phases of time zero, every
    /// countdown at zero, and no active agents.
    pub fn new(settings: Settings) -> (r: Result<Forward, ConfigError>)
        ensures
            r.is_ok() <==> settings.wf(),
            r.is_ok() ==> ({
                let fw = r.unwrap();
                &&& fw.wf()
                &&& fw.settings == settings
                &&& fw.elapsed_us == 0
                &&& fw.veh_signals@.len() == settings.veh_signals@.len()
                &&& forall|i: int|
                    0 <= i < fw.veh_signals@.len() ==> #[trigger] fw.veh_signals@[i]
                        == settings.veh_signals@[i].phase_spec(0)
                &&& fw.ped_signals@.len() == settings.ped_signals@.len()
                &&& forall|i: int|
                    0 <= i < fw.ped_signals@.len() ==> #[trigger] fw.ped_signals@[i]
                        == settings.ped_signals@[i].phase_spec(0)
                &&& forall|i: int|
                    0 <= i < fw.lt_states@.len() ==> (#[trigger] fw.lt_states@[i]).next_spawn_us
                        == 0 && fw.lt_states@[i].agents@.len() == 0
                &&& forall|i: int|
                    0 <= i < fw.rt_states@.len() ==> (#[trigger] fw.rt_states@[i]).next_spawn_us
                        == 0 && fw.rt_states@[i].agents@.len() == 0
                &&& forall|i: int|
                    0 <= i < fw.ped_states@.len() ==> (#[trigger] fw.ped_states@[i]).next_spawn_us
                        == 0 && fw.ped_states@[i].agents@.len() == 0
                &&& forall|i: int|
                    0 <= i < fw.ig_states@.len() ==> (#[trigger] fw.ig_states@[i]).next_spawn_us
                        == 0 && fw.ig_states@[i].agents@.len() == 0
            }),
    {
        if let Err(e) = settings.validate() {
            return Err(e);
        }
        let veh_signals = compute_veh_phases(&settings.veh_signals, 0);
        let ped_signals = compute_ped_phases(&settings.ped_signals, 0);
        let lt_sig = build_veh_sig(&settings, &settings.lt_veh_flows);
        let rt_sig = build_veh_sig(&settings, &settings.rt_veh_flows);
        let ped_sig = build_ped_sig(&settings, &settings.ped_flows);
        let ig_sig = build_ped_sig(&settings, &settings.ig_ped_flows);
        let lt_states = init_states(settings.lt_veh_flows.len());
        let rt_states = init_states(settings.rt_veh_flows.len());
        let ped_states = init_states(settings.ped_flows.len());
        let ig_states = init_states(settings.ig_ped_flows.len());
        Ok(
            Forward {
                settings,
                veh_signals,
                ped_signals,
                elapsed_us: 0,
                lt_states,
                rt_states,
                ped_states,
                ig_states,
                lt_sig,
                rt_sig,
                ped_sig,
                ig_sig,
            },
        )
    }

    /// One simulation tick of `delta_us` microseconds: recomputes every
    /// phase from the current elapsed time, runs every flow's gated spawner
    /// against the given draw bundle, advances and expires every active
    /// agent, and advances elapsed time.  The tick itself cannot fail.
    pub fn forward(&mut self, delta_us: u64, draws: &TickDraws)
        requires
            old(self).wf(),
            draws.lt@.len() == old(self).settings.lt_veh_flows@.len(),
            draws.rt@.len() == old(self).settings.rt_veh_flows@.len(),
            draws.ped@.len() == old(self).settings.ped_flows@.len(),
            draws.ig@.len() == old(self).settings.ig_ped_flows@.len(),
            delta_us <= FP_SAT as u64,
            old(self).elapsed_us + delta_us <= u64::MAX,
        ensures
            final(self).wf(),
            final(self).settings == old(self).settings,
            final(self).lt_sig == old(self).lt_sig,
            final(self).rt_sig == old(self).rt_sig,
            final(self).ped_sig == old(self).ped_sig,
            final(self).ig_sig == old(self).ig_sig,
            final(self).elapsed_us == old(self).elapsed_us + delta_us,
            final(self).veh_signals@.len() == old(self).settings.veh_signals@.len(),
            forall|i: int|
                0 <= i < final(self).veh_signals@.len() ==> #[trigger] final(self).veh_signals@[i]
                    == old(self).settings.veh_signals@[i].phase_spec(old(self).elapsed_us as int),
            final(self).ped_signals@.len() == old(self).settings.ped_signals@.len(),
            forall|i: int|
                0 <= i < final(self).ped_signals@.len() ==> #[trigger] final(self).ped_signals@[i]
                    == old(self).settings.ped_signals@[i].phase_spec(old(self).elapsed_us as int),
            forall|i: int|
                0 <= i < old(self).settings.lt_veh_flows@.len() ==> veh_flow_rel(
                    old(self).settings,
                    old(self).settings.lt_veh_flows@[i],
                    true,
                    old(self).lt_gate(i),
                    draws.lt@[i],
                    delta_us as int,
                    old(self).lt_states@[i],
                    #[trigger] final(self).lt_states@[i],
                ),
            forall|i: int|
                0 <= i < old(self).settings.rt_veh_flows@.len() ==> veh_flow_rel(
                    old(self).settings,
                    old(self).settings.rt_veh_flows@[i],
                    false,
                    old(self).rt_gate(i),
                    draws.rt@[i],
                    delta_us as int,
                    old(self).rt_states@[i],
                    #[trigger] final(self).rt_states@[i],
                ),
            forall|i: int|
                0 <= i < old(self).settings.ped_flows@.len() ==> ped_flow_rel(
                    old(self).settings,
                    old(self).settings.ped_flows@[i],
                    old(self).ped_gate(i),
                    draws.ped@[i],
                    delta_us as int,
                    old(self).ped_states@[i],
                    #[trigger] final(self).ped_states@[i],
                ),
            forall|i: int|
                0 <= i < old(self).settings.ig_ped_flows@.len() ==> ped_flow_rel(
                    old(self).settings,
                    old(self).settings.ig_ped_flows@[i],
                    old(self).ig_gate(i),
                    draws.ig@[i],
                    delta_us as int,
                    old(self).ig_states@[i],
                    #[trigger] final(self).ig_states@[i],
                ),
    {
        let t = self.elapsed_us;
        let vp = compute_veh_phases(&self.settings.veh_signals, t);
        let pp = compute_ped_phases(&self.settings.ped_signals, t);
        self.veh_signals = vp;
        self.ped_signals = pp;
        run_veh_flows(
            &self.settings,
            &self.settings.lt_veh_flows,
            true,
            &mut self.lt_states,
            &self.lt_sig,
            &self.veh_signals,
            &draws.lt,
            delta_us,
        );
        run_veh_flows(
            &self.settings,
            &self.settings.rt_veh_flows,
            false,
            &mut self.rt_states,
            &self.rt_sig,
            &self.veh_signals,
            &draws.rt,
            delta_us,
        );
        run_ped_flows(
            &self.settings,
            &self.settings.ped_flows,
            false,
            PedSignalState::Green,
            &mut self.ped_states,
            &self.ped_sig,
            &self.ped_signals,
            &draws.ped,
            delta_us,
        );
        run_ped_flows(
            &self.settings,
            &self.settings.ig_ped_flows,
            true,
            PedSignalState::Blink,
            &mut self.ig_states,
            &self.ig_sig,
            &self.ped_signals,
            &draws.ig,
            delta_us,
        );
        self.elapsed_us = self.elapsed_us + delta_us;
    }
}


/// Advancing a pool of well-formed agents by zero steps changes nothing.
pub proof fn lemma_step_pool_zero(pool: Seq<AgentV>)
    requires
        forall|j: int| 0 <= j < pool.len() ==> (#[trigger] pool[j]).cursor < pool[j].path.len(),
    ensures
        step_pool(pool, 0) =~= pool,
    decreases pool.len(),
{
    if pool.len() > 0 {
        assert(forall|j: int|
            0 <= j < pool.subrange(1, pool.len() as int).len() ==> (#[trigger] pool.subrange(
                1,
                pool.len() as int,
            )[j]).cursor < pool.subrange(1, pool.len() as int)[j].path.len());
        lemma_step_pool_zero(pool.subrange(1, pool.len() as int));
        assert(pool[0].cursor + 0 < pool[0].path.len());
        assert((AgentV { path: pool[0].path, cursor: pool[0].cursor + 0 }) == pool[0]);
        assert(seq![pool[0]] + pool.subrange(1, pool.len() as int) =~= pool);
    }
}

/// Advancing a pool of well-formed agents, extended by one fresh agent, by
/// zero steps keeps the pool and keeps the fresh agent exactly when its
/// path is nonempty.
pub proof fn lemma_step_pool_zero_push(pool: Seq<AgentV>, a: AgentV)
    requires
        forall|j: int| 0 <= j < pool.len() ==> (#[trigger] pool[j]).cursor < pool[j].path.len(),
    ensures
        step_pool(pool.push(a), 0) =~= if a.cursor < a.path.len() {
            pool.push(a)
        } else {
            pool
        },
    decreases pool.len(),
{
    if pool.len() == 0 {
        assert(pool.push(a)[0] == a);
        assert(pool.push(a).subrange(1, 1) =~= Seq::<AgentV>::empty());
        assert(step_pool(Seq::<AgentV>::empty(), 0) =~= Seq::<AgentV>::empty());
        if a.cursor < a.path.len() {
            assert((AgentV { path: a.path, cursor: a.cursor + 0 }) == a);
            assert(seq![a] + Seq::<AgentV>::empty() =~= pool.push(a));
        } else {
            assert(pool =~= Seq::<AgentV>::empty());
        }
    } else {
        let tail = pool.subrange(1, pool.len() as int);
        assert(pool.push(a).subrange(1, pool.push(a).len() as int) =~= tail.push(a));
        assert(forall|j: int|
            0 <= j < tail.len() ==> (#[trigger] tail[j]).cursor < tail[j].path.len());
        lemma_step_pool_zero_push(tail, a);
        assert(pool.push(a)[0] == pool[0]);
        assert((AgentV { path: pool[0].path, cursor: pool[0].cursor + 0 }) == pool[0]);
        if a.cursor < a.path.len() {
            assert(seq![pool[0]] + tail.push(a) =~= pool.push(a));
        } else {
            assert(seq![pool[0]] + tail =~= pool);
        }
    }
}

/// Stepping never grows a pool.
pub proof fn lemma_step_pool_len(pool: Seq<AgentV>, steps: int)
    ensures
        step_pool(pool, steps).len() <= pool.len(),
    decreases pool.len(),
{
    if pool.len() > 0 {
        lemma_step_pool_len(pool.subrange(1, pool.len() as int), steps);
    }
}

/// A zero tick changes no active-agent cursor: every agent present before
/// the tick is still present, in place, with the same cursor, whatever the
/// gate and the draws did.  (Phases likewise cannot change across a zero
/// tick: they are a function of elapsed time alone, and a zero tick leaves
/// elapsed time unchanged.)
pub proof fn lemma_tick_zero_veh(
    s: Settings,
    f: VehFlow,
    left: bool,
    gate_open: bool,
    draw: VehTickDraw,
    old_fs: FlowState,
    new_fs: FlowState,
)
    requires
        veh_flow_rel(s, f, left, gate_open, draw, 0, old_fs, new_fs),
        flow_state_wf(old_fs),
    ensures
        new_fs.agents@.len() >= old_fs.agents@.len(),
        forall|j: int|
            0 <= j < old_fs.agents@.len() ==> #[trigger] pool_view(new_fs.agents@)[j] == pool_view(
                old_fs.agents@,
            )[j],
{
    let old_pool = pool_view(old_fs.agents@);
    assert(forall|j: int|
        0 <= j < old_pool.len() ==> (#[trigger] old_pool[j]).cursor < old_pool[j].path.len());
    let d = clamp_draws_spec(draw.sample);
    let g = if left {
        lt_geom_of(s, f, d)
    } else {
        rt_geom_of(s, f, d)
    };
    let iso = if left {
        lt_iso_of(s, f, d)
    } else {
        rt_iso_of(s, f, d)
    };
    let cd1 = sub_sat_spec(old_fs.next_spawn_us as int, 0);
    let attempt = cd1 <= 0 && gate_open;
    if attempt && g.l_arc >= 0 {
        let a = choose|a: AgentV|
            #[trigger] veh_spawn_ok(d, g, left, iso, a) && pool_view(new_fs.agents@) == step_pool(
                old_pool.push(a),
                0,
            );
        lemma_step_pool_zero_push(old_pool, a);
    } else {
        lemma_step_pool_zero(old_pool);
    }
}

/// The zero-tick law for a pedestrian flow.
pub proof fn lemma_tick_zero_ped(
    s: Settings,
    f: PedFlow,
    gate_open: bool,
    draw: PedTickDraw,
    old_fs: FlowState,
    new_fs: FlowState,
)
    requires
        ped_flow_rel(s, f, gate_open, draw, 0, old_fs, new_fs),
        flow_state_wf(old_fs),
    ensures
        new_fs.agents@.len() >= old_fs.agents@.len(),
        forall|j: int|
            0 <= j < old_fs.agents@.len() ==> #[trigger] pool_view(new_fs.agents@)[j] == pool_view(
                old_fs.agents@,
            )[j],
{
    let old_pool = pool_view(old_fs.agents@);
    assert(forall|j: int|
        0 <= j < old_pool.len() ==> (#[trigger] old_pool[j]).cursor < old_pool[j].path.len());
    let d = crate::crossing::clamp_ped_draws_spec(draw.sample);
    let case = ped_case_of(f);
    let width = ped_width_of(s, case);
    let cw_width = ped_cw_width_of(s, case);
    let iso = ped_iso_spec(
        s,
        case,
        crate::sampler::settings_rot_c(s),
        crate::sampler::settings_rot_s(s),
    );
    let cd1 = sub_sat_spec(old_fs.next_spawn_us as int, 0);
    let attempt = cd1 <= 0 && gate_open;
    if attempt {
        let a = choose|a: AgentV|
            #[trigger] ped_spawn_ok(d, width, cw_width, iso, a) && pool_view(new_fs.agents@)
                == step_pool(old_pool.push(a), 0);
        lemma_step_pool_zero_push(old_pool, a);
    } else {
        lemma_step_pool_zero(old_pool);
    }
}

/// A movement held Red spawns nothing: with a closed gate the tick only
/// advances and expires the agents already present, so the pool never
/// grows, and the countdown keeps falling without re-arming.
pub proof fn lemma_closed_gate_no_spawn(
    s: Settings,
    f: VehFlow,
    left: bool,
    draw: VehTickDraw,
    delta: int,
    old_fs: FlowState,
    new_fs: FlowState,
)
    requires
        veh_flow_rel(s, f, left, false, draw, delta, old_fs, new_fs),
    ensures
        pool_view(new_fs.agents@) == step_pool(pool_view(old_fs.agents@), delta / (STEP_FP as int)),
        new_fs.agents@.len() <= old_fs.agents@.len(),
        new_fs.next_spawn_us as int == sub_sat_spec(old_fs.next_spawn_us as int, delta),
{
    lemma_step_pool_len(pool_view(old_fs.agents@), delta / (STEP_FP as int));
    assert(pool_view(new_fs.agents@).len() == new_fs.agents@.len());
    assert(pool_view(old_fs.agents@).len() == old_fs.agents@.len());
}

/// Geometric infeasibility still re-arms the spawner: when an attempt's
/// drawn clothoid/radius combination leaves a negative arc length, no agent
/// is created, yet the countdown is redrawn from the exponential rather
/// than stalling.
pub proof fn lemma_infeasible_rearms(
    s: Settings,
    f: VehFlow,
    left: bool,
    draw: VehTickDraw,
    delta: int,
    old_fs: FlowState,
    new_fs: FlowState,
)
    requires
        veh_flow_rel(s, f, left, true, draw, delta, old_fs, new_fs),
        sub_sat_spec(old_fs.next_spawn_us as int, delta) <= 0,
        (if left {
            lt_geom_of(s, f, clamp_draws_spec(draw.sample))
        } else {
            rt_geom_of(s, f, clamp_draws_spec(draw.sample))
        }).l_arc < 0,
    ensures
        pool_view(new_fs.agents@) == step_pool(pool_view(old_fs.agents@), delta / (STEP_FP as int)),
        new_fs.agents@.len() <= old_fs.agents@.len(),
        new_fs.next_spawn_us as int == sat_spec(draw.exp_us as int),
{
    lemma_step_pool_len(pool_view(old_fs.agents@), delta / (STEP_FP as int));
    assert(pool_view(new_fs.agents@).len() == new_fs.agents@.len());
    assert(pool_view(old_fs.agents@).len() == old_fs.agents@.len());
}

/// Exact-boundary expiry: an agent advanced by exactly its remaining steps
/// is removed on that very tick — the boundary case `cursor + steps ==
/// path length` expires, while one step fewer survives with its cursor
/// advanced.
pub proof fn lemma_step_boundary(a: AgentV, steps: int)
    ensures
        step_pool(seq![a], steps) == if a.cursor + steps < a.path.len() {
            seq![AgentV { path: a.path, cursor: a.cursor + steps }]
        } else {
            Seq::<AgentV>::empty()
        },
{
    let p = seq![a];
    assert(p[0] == a);
    assert(p.subrange(1, 1) =~= Seq::<AgentV>::empty());
    assert(step_pool(Seq::<AgentV>::empty(), steps) =~= Seq::<AgentV>::empty());
    if a.cursor + steps < a.path.len() {
        assert(step_pool(p, steps) =~= seq![AgentV { path: a.path, cursor: a.cursor + steps }]
            + Seq::<AgentV>::empty());
        assert(seq![AgentV { path: a.path, cursor: a.cursor + steps }] + Seq::<AgentV>::empty()
            =~= seq![AgentV { path: a.path, cursor: a.cursor + steps }]);
    } else {
        assert(step_pool(p, steps) =~= Seq::<AgentV>::empty());
    }
}


impl FlowState {
    /// The current placed position of every active agent of this flow, in
    /// pool order: each agent's path point at its step cursor.
    pub fn positions(&self) -> (r: Vec<Vec2>)
        requires
            flow_state_wf(*self),
        ensures
            r@.len() == self.agents@.len(),
            forall|i: int|
                0 <= i < self.agents@.len() ==> #[trigger] r@[i] == self.agents@[i].path@[self.agents@[i].cursor as int],
    {
        let n = self.agents.len();
        let mut out: Vec<Vec2> = Vec::new();
        let mut i: usize = 0;
        while i < n
            invariant
                flow_state_wf(*self),
                n == self.agents@.len(),
                i <= n,
                out@.len() == i,
                forall|j: int|
                    0 <= j < i ==> #[trigger] out@[j] == self.agents@[j].path@[self.agents@[j].cursor as int],
            decreases n - i,
        {
            let a = &self.agents[i];
            proof {
                assert(agent_wf(self.agents@[i as int]));
            }
            out.push(a.path[a.cursor]);
            i = i + 1;
        }
        out
    }
}

} // verus!
