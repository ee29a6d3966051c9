//! End-to-end tests of the tick-driven runtime: spawning under an open
//! gate, silence under Red, re-arming on geometric infeasibility, the
//! zero-tick idempotence, exact-boundary expiry, and the empirical arrival
//! rate of a permanently Green flow.

use intersim::dir::Dir;
use intersim::path::intersection_point;
use intersim::profile::Vec2;
use intersim::regress::bernoulli;
use intersim::regress::lt_params;
use intersim::sampler::turn_angle;
use intersim::sampler::VehDraws;
use intersim::settings::PedFlow;
use intersim::settings::Settings;
use intersim::settings::VehFlow;
use intersim::signal::PedSignal;
use intersim::signal::VehSignal;
use intersim::signal::VehSignalState;
use intersim::sim::Agent;
use intersim::sim::Forward;
use intersim::sim::PedTickDraw;
use intersim::sim::TickDraws;
use intersim::sim::VehTickDraw;
use rand::Rng;
use rand::SeedableRng;

fn lt_flow() -> VehFlow {
    VehFlow {
        src_dir: Dir::NxPy,
        src_lane: 3,
        dst_dir: Dir::PyNx,
        dst_lane: 3,
        density: 100_000,
        v_in_mean: 10_000_000,
        v_in_stdv: 1_000_000,
        v_out_mean: 10_000_000,
        v_out_stdv: 1_000_000,
        padding_out_mean: 1_750_000,
        padding_out_stdv: 100_000,
        large_prob: 100_000,
    }
}

fn one_lt_settings(green: bool) -> Settings {
    let mut s = Settings::default();
    s.lt_veh_flows = vec![lt_flow()];
    s.rt_veh_flows = vec![];
    s.ped_flows = vec![];
    s.ig_ped_flows = vec![];
    s.ped_signals = vec![];
    s.veh_signals = vec![VehSignal {
        src_dir: Dir::NxPy,
        dst_dir: Dir::PyNx,
        offset_us: 0,
        green_us: if green { 360_000_000 } else { 0 },
        yellow_us: 0,
        red_us: if green { 0 } else { 360_000_000 },
        cycle_us: 360_000_000,
    }];
    s
}

fn nice_sample() -> VehDraws {
    VehDraws {
        v_in: 10_000_000,
        v_out: 10_000_000,
        padding: 1_750_000,
        large: false,
        c_in: 2_000_000,
        c_out: 2_000_000,
        v_min: 9_000_000,
        x_min: 5_000_000,
        r_min: 20_000_000,
    }
}

fn fixed_draws(exp_us: i64) -> TickDraws {
    TickDraws {
        lt: vec![VehTickDraw { sample: nice_sample(), exp_us }],
        rt: vec![],
        ped: vec![],
        ig: vec![],
    }
}

#[test]
fn default_settings_lack_signal_coverage() {
    // the baseline flow movements have no matching plan entries, which the
    // loader reports instead of panicking deep in a sampler
    assert!(Forward::new(Settings::default()).is_err());
}

#[test]
fn open_gate_spawns_an_agent() {
    let mut fw = Forward::new(one_lt_settings(true)).unwrap();
    assert_eq!(fw.lt_states[0].agents.len(), 0);
    fw.forward(10_000, &fixed_draws(2_000_000));
    assert_eq!(fw.lt_states[0].agents.len(), 1);
    assert_eq!(fw.veh_signals[0], VehSignalState::Green);
    // the countdown was re-armed from the drawn exponential
    assert_eq!(fw.lt_states[0].next_spawn_us, 2_000_000);
    assert_eq!(fw.elapsed_us, 10_000);
}

#[test]
fn spawned_vehicle_enters_at_its_origin_time() {
    // the path is entered at its origin time, not at its first sample
    let s = one_lt_settings(true);
    let out = intersim::sampler::compute_lt_veh(&s, &lt_flow(), &nice_sample()).unwrap();
    assert!(out.t_o > 0, "origin time {}", out.t_o);
    let entry = (out.t_o / 10_000) as usize;
    assert!(entry > 0 && entry + 1 < out.trajectory_series.len());
    let mut fw = Forward::new(s).unwrap();
    // one tick of one whole step: spawn at the entry cursor, then advance
    fw.forward(10_000, &fixed_draws(2_000_000));
    assert_eq!(fw.lt_states[0].agents[0].cursor, entry + 1);
}

#[test]
fn red_gate_never_spawns() {
    let mut fw = Forward::new(one_lt_settings(false)).unwrap();
    for _ in 0..500 {
        fw.forward(100_000, &fixed_draws(1));
        assert_eq!(fw.lt_states[0].agents.len(), 0);
        assert_eq!(fw.veh_signals[0], VehSignalState::Red);
    }
    // the countdown keeps falling without re-arming
    assert!(fw.lt_states[0].next_spawn_us < 0);
}

#[test]
fn infeasible_geometry_rearms_without_agent() {
    let mut s = one_lt_settings(true);
    // a one-degree turn defeats every clothoid/radius draw
    s.angle = 1_000_000;
    let mut fw = Forward::new(s).unwrap();
    for k in 1..=20u64 {
        fw.forward(500_000, &fixed_draws(400_000));
        assert_eq!(fw.lt_states[0].agents.len(), 0);
        // every tick crosses the re-armed countdown, so the scheduler keeps
        // attempting instead of stalling
        assert_eq!(fw.lt_states[0].next_spawn_us, 400_000);
        assert_eq!(fw.elapsed_us, k * 500_000);
    }
}

#[test]
fn zero_tick_changes_no_cursor_and_no_phase() {
    let mut fw = Forward::new(one_lt_settings(true)).unwrap();
    fw.forward(10_000, &fixed_draws(1_000_000_000));
    fw.forward(200_000, &fixed_draws(1_000_000_000));
    assert_eq!(fw.lt_states[0].agents.len(), 1);
    let cursor_before = fw.lt_states[0].agents[0].cursor;
    let phase_before = fw.veh_signals[0];
    let elapsed_before = fw.elapsed_us;
    for _ in 0..5 {
        fw.forward(0, &fixed_draws(1_000_000_000));
        assert_eq!(fw.lt_states[0].agents[0].cursor, cursor_before);
        assert_eq!(fw.veh_signals[0], phase_before);
        assert_eq!(fw.elapsed_us, elapsed_before);
    }
}

#[test]
fn positions_read_the_cursor_point() {
    let mut fw = Forward::new(one_lt_settings(true)).unwrap();
    fw.lt_states[0].next_spawn_us = 1_000_000_000;
    let path: Vec<Vec2> = (0..5).map(|i| Vec2 { x: 10 * i, y: i }).collect();
    fw.lt_states[0].agents.push(Agent { path, cursor: 0 });
    fw.forward(20_000, &fixed_draws(1));
    let pts = fw.lt_states[0].positions();
    assert_eq!(pts, vec![Vec2 { x: 20, y: 2 }]);
}

#[test]
fn exact_boundary_expires_agent_on_that_tick() {
    let mut fw = Forward::new(one_lt_settings(true)).unwrap();
    // park the spawner far in the future and place one agent by hand
    fw.lt_states[0].next_spawn_us = 1_000_000_000;
    let path: Vec<Vec2> = (0..5).map(|i| Vec2 { x: i, y: i }).collect();
    fw.lt_states[0].agents.push(Agent { path, cursor: 0 });
    // four whole steps leave the cursor one short of the end
    fw.forward(40_000, &fixed_draws(1));
    assert_eq!(fw.lt_states[0].agents.len(), 1);
    assert_eq!(fw.lt_states[0].agents[0].cursor, 4);
    // exactly the remaining one step removes it on this very tick
    fw.forward(10_000, &fixed_draws(1));
    assert_eq!(fw.lt_states[0].agents.len(), 0);
}

fn fp(x: f64) -> i64 {
    (x * 1_000_000.0) as i64
}

fn fl(x: i64) -> f64 {
    x as f64 / 1_000_000.0
}

fn normal(rng: &mut impl Rng, mean: i64, stdv: i64) -> i64 {
    let d = rand_distr::Normal::new(fl(mean), fl(stdv)).unwrap();
    fp(rng.sample(d))
}

fn gamma(rng: &mut impl Rng, shape: i64, scale: i64) -> i64 {
    let d = rand_distr::Gamma::new(fl(shape), fl(scale)).unwrap();
    fp(rng.sample(d))
}

/// The staged draw pipeline of one left-turn spawn attempt, as the host
/// around the kernel performs it.
fn draw_lt(rng: &mut impl Rng, s: &Settings, f: &VehFlow) -> VehDraws {
    let v_in = normal(rng, f.v_in_mean, f.v_in_stdv);
    let v_out = normal(rng, f.v_out_mean, f.v_out_stdv);
    let padding = normal(rng, f.padding_out_mean, f.padding_out_stdv);
    let u = fp(rng.gen::<f64>());
    let large = bernoulli(u, f.large_prob);
    let case = intersim::dir::left_turn_case(f.src_dir, f.dst_dir, f.src_lane, f.dst_lane).unwrap();
    let theta = turn_angle(case, s.angle);
    let p = lt_params(v_in, v_out, theta, s.radius, padding, large);
    let c_in = gamma(rng, p.c_in_shape, p.c_in_scale);
    let c_out = gamma(rng, p.c_out_shape, p.c_out_scale);
    let v_min = normal(rng, p.v_min_mean, p.v_min_std);
    let x_min = normal(rng, p.x_min_mean, p.x_min_std);
    let r_min = normal(rng, p.r_min_mean, p.r_min_std);
    VehDraws { v_in, v_out, padding, large, c_in, c_out, v_min, x_min, r_min }
}

#[test]
fn green_flow_mean_interarrival_is_one_second() {
    // density 0.1 per metre times 10 m/s inflow: one arrival per second
    let s = one_lt_settings(true);
    let f = lt_flow();
    let mut fw = Forward::new(s.clone()).unwrap();
    let mut rng = rand::rngs::StdRng::seed_from_u64(7);
    let lambda = fl(f.density) * fl(f.v_in_mean);
    let exp = rand_distr::Exp::new(lambda).unwrap();
    let delta: u64 = 50_000;
    let ticks: u64 = 40_000;
    let mut attempts: u64 = 0;
    for _ in 0..ticks {
        let before = fw.lt_states[0].next_spawn_us;
        let draws = TickDraws {
            lt: vec![VehTickDraw {
                sample: draw_lt(&mut rng, &s, &f),
                exp_us: fp(rng.sample(exp)),
            }],
            rt: vec![],
            ped: vec![],
            ig: vec![],
        };
        fw.forward(delta, &draws);
        if before - delta as i64 <= 0 {
            attempts += 1;
        }
    }
    let total_secs = (ticks * delta) as f64 / 1_000_000.0;
    let mean = total_secs / attempts as f64;
    assert!(
        (0.9..1.1).contains(&mean),
        "empirical mean inter-arrival {mean} s over {attempts} arrivals"
    );
}

#[test]
fn line_intersection_exact() {
    let p0 = Vec2 { x: 0, y: 0 };
    let p1 = Vec2 { x: 2_000_000, y: 0 };
    let q0 = Vec2 { x: 1_000_000, y: -1_000_000 };
    let q1 = Vec2 { x: 1_000_000, y: 1_000_000 };
    assert_eq!(intersection_point(p0, p1, q0, q1), Vec2 { x: 1_000_000, y: 0 });
    let p0 = Vec2 { x: 0, y: 0 };
    let p1 = Vec2 { x: 1_000_000, y: 1_000_000 };
    let q0 = Vec2 { x: 0, y: 2_000_000 };
    let q1 = Vec2 { x: 1_000_000, y: 1_000_000 };
    assert_eq!(
        intersection_point(p0, p1, q0, q1),
        Vec2 { x: 1_000_000, y: 1_000_000 }
    );
}

#[test]
fn ped_tick_gated_on_green() {
    let mut s = one_lt_settings(true);
    s.lt_veh_flows = vec![];
    s.veh_signals = vec![];
    s.ped_flows = vec![PedFlow {
        src: Dir::NxPy,
        dst: Dir::NxNy,
        density: 100_000,
        v_in_mean: 1_000_000,
        v_in_stdv: 100_000,
        x_in_mean: 0,
        x_in_stdv: 100_000,
        d_in_mean: 0,
        d_in_stdv: 100_000,
        diagonal_prob: 100_000,
    }];
    s.ped_signals = vec![PedSignal {
        src_dir: Dir::NxPy,
        dst_dir: Dir::NxNy,
        offset_us: 0,
        green_us: 360_000_000,
        blink_us: 0,
        red_us: 0,
        cycle_us: 360_000_000,
    }];
    let mut fw = Forward::new(s).unwrap();
    let draws = TickDraws {
        lt: vec![],
        rt: vec![],
        ped: vec![PedTickDraw {
            sample: intersim::crossing::PedDraws {
                v_init: 1_000_000,
                x_init: 0,
                diagonal: false,
                v_1: 1_000_000,
                v_2: 1_000_000,
                x_1: 0,
                x_2: 0,
                x_3: 0,
            },
            exp_us: 5_000_000,
        }],
        ig: vec![],
    };
    fw.forward(10_000, &draws);
    assert_eq!(fw.ped_states[0].agents.len(), 1);
    assert_eq!(fw.ped_states[0].next_spawn_us, 5_000_000);
}
