//! The cubic velocity profile of a turning vehicle and its integration into
//! a position-versus-time series.
//!
//! A turn's speed falls from the inflow speed `v_in` to the apex speed
//! `v_min` along `v(t) = c_in t^3 - 1.5 c_in t_min t^2 + v_in` and rises
//! again along the mirrored cubic toward `v_out`.  The half durations are
//! cube roots of `2 (v_in - v_min) / c_in` and `2 (v_min - v_out) / (-c_out)`
//! respectively, so the two halves meet at the apex speed; that junction
//! continuity is proved here over the exact mathematical model.

use vstd::prelude::*;
use crate::fixed::add_sat;
use crate::fixed::add_sat_spec;
use crate::fixed::in_range;
use crate::fixed::mul_sat;
use crate::fixed::mul_sat_spec;
use crate::fixed::sub_sat;
use crate::fixed::sub_sat_spec;

verus! {

/// Discretization step of every series: 0.01 s in fixed point.
pub const STEP_FP: i64 = 10_000;

/// Hard cap on a half profile's duration: 100 s in fixed point.
pub const MAX_TIME_FP: i64 = 100_000_000;

/// A two-component fixed-point vector; doubles as a (time, value) sample and
/// as a 2D point.
#[derive(Clone, Copy, PartialEq, Eq, Structural, Debug)]
pub struct Vec2 {
    pub x: i64,
    pub y: i64,
}

/// A `Vec2` whose components are in the saturating range.
pub open spec fn vec2_in_range(p: Vec2) -> bool {
    in_range(p.x as int) && in_range(p.y as int)
}

/// The quadratic coefficient of a half profile: `-1.5 a t_apex` with the
/// crate's rounding.
pub open spec fn cubic_coeff_b(a: int, t_apex: int) -> int {
    mul_sat_spec(mul_sat_spec(-1_500_000, a), t_apex)
}

/// The half-profile speed at time `t` from the half's start: the cubic
/// `a t^3 + b t^2 + v0` evaluated with the crate's rounding.
pub open spec fn cubic_vel_at(a: int, t_apex: int, v0: int, t: int) -> int {
    let t2 = mul_sat_spec(t, t);
    let t3 = mul_sat_spec(t2, t);
    add_sat_spec(add_sat_spec(mul_sat_spec(a, t3), mul_sat_spec(cubic_coeff_b(a, t_apex), t2)), v0)
}

/// Executable mirror of [`cubic_vel_at`].
pub fn cubic_vel(a: i64, t_apex: i64, v0: i64, t: i64) -> (r: i64)
    requires
        in_range(a as int),
        in_range(t_apex as int),
        in_range(v0 as int),
        in_range(t as int),
    ensures
        r as int == cubic_vel_at(a as int, t_apex as int, v0 as int, t as int),
        in_range(r as int),
{
    let t2 = mul_sat(t, t);
    let t3 = mul_sat(t2, t);
    let b = mul_sat(mul_sat(-1_500_000, a), t_apex);
    add_sat(add_sat(mul_sat(a, t3), mul_sat(b, t2)), v0)
}

/// Number of samples of a half profile with apex time `t_apex`: one sample
/// every `STEP_FP` while the time is at most both the apex time and the hard
/// cap; none when the apex time is negative.
pub open spec fn half_len(t_apex: int) -> int {
    if t_apex < 0 {
        0
    } else if t_apex >= MAX_TIME_FP as int {
        (MAX_TIME_FP as int) / (STEP_FP as int) + 1
    } else {
        t_apex / (STEP_FP as int) + 1
    }
}

/// The `k`-th sample of a half profile whose local times are offset by
/// `t_off` in the full series.
pub open spec fn half_sample(a: int, t_apex: int, v0: int, t_off: int, k: int) -> Vec2 {
    let t = k * (STEP_FP as int);
    Vec2 {
        x: add_sat_spec(t_off, t) as i64,
        y: cubic_vel_at(a, t_apex, v0, t) as i64,
    }
}

/// Appends the discretized half profile to `out`, one sample every
/// `STEP_FP` up to the apex time (capped at `MAX_TIME_FP`).
pub fn push_half_profile(out: &mut Vec<Vec2>, a: i64, t_apex: i64, v0: i64, t_off: i64)
    requires
        in_range(a as int),
        in_range(t_apex as int),
        in_range(v0 as int),
        in_range(t_off as int),
    ensures
        final(out)@.len() == old(out)@.len() + half_len(t_apex as int),
        forall|k: int|
            0 <= k < old(out)@.len() ==> final(out)@[k] == old(out)@[k],
        forall|k: int|
            0 <= k < half_len(t_apex as int) ==> final(out)@[old(out)@.len() + k]
                == half_sample(a as int, t_apex as int, v0 as int, t_off as int, k),
{
    let base = out.len();
    let mut t: i64 = 0;
    let mut k: u64 = 0;
    while t <= t_apex && t <= MAX_TIME_FP
        invariant
            in_range(a as int),
            in_range(t_apex as int),
            in_range(v0 as int),
            in_range(t_off as int),
            t == k * (STEP_FP as int),
            0 <= t <= MAX_TIME_FP as int + STEP_FP as int,
            out@.len() == base + k,
            k <= half_len(t_apex as int),
            (t <= t_apex && t <= MAX_TIME_FP as int) ==> k < half_len(t_apex as int),
            k >= 1 ==> (k - 1) * (STEP_FP as int) <= t_apex as int && (k - 1) * (
            STEP_FP as int) <= MAX_TIME_FP as int,
            forall|j: int| 0 <= j < base ==> out@[j] == old(out)@[j],
            forall|j: int|
                0 <= j < k ==> out@[base + j] == half_sample(
                    a as int,
                    t_apex as int,
                    v0 as int,
                    t_off as int,
                    j,
                ),
        decreases MAX_TIME_FP as int + STEP_FP as int - t,
    {
        let v = cubic_vel(a, t_apex, v0, t);
        out.push(Vec2 { x: add_sat(t_off, t), y: v });
        proof {
            assert((k + 1) * (STEP_FP as int) == k * (STEP_FP as int) + STEP_FP as int)
                by (nonlinear_arith);
            if t + STEP_FP as int <= t_apex && t + STEP_FP as int <= MAX_TIME_FP as int {
                assert((k + 1) < half_len(t_apex as int)) by {
                    lemma_step_index_bound(t_apex as int, k as int + 1);
                };
            }
        }
        t = t + STEP_FP;
        k = k + 1;
    }
    proof {
        assert(k == half_len(t_apex as int)) by {
            if t_apex >= 0 {
                lemma_step_index_exact(t_apex as int, k as int);
            }
        };
    }
}

/// If `(k+1) * STEP` still lies below both caps then `k+1` is still short of
/// the half length.
proof fn lemma_step_index_bound(t_apex: int, k1: int)
    requires
        0 <= k1,
        k1 * (STEP_FP as int) <= t_apex,
        k1 * (STEP_FP as int) <= MAX_TIME_FP as int,
    ensures
        k1 < half_len(t_apex),
{
    let s = STEP_FP as int;
    assert(k1 <= (k1 * s) / s) by (nonlinear_arith)
        requires
            s == 10_000,
            0 <= k1;
    if t_apex >= MAX_TIME_FP as int {
        assert((k1 * s) / s <= (MAX_TIME_FP as int) / s) by {
            vstd::arithmetic::div_mod::lemma_div_is_ordered(
                k1 * s,
                MAX_TIME_FP as int,
                s,
            );
        };
    } else {
        assert((k1 * s) / s <= t_apex / s) by {
            vstd::arithmetic::div_mod::lemma_div_is_ordered(k1 * s, t_apex, s);
        };
    }
}

/// When the loop leaves at index `k`, `k` equals the half length.
proof fn lemma_step_index_exact(t_apex: int, k: int)
    requires
        t_apex >= 0,
        0 <= k,
        !(k * (STEP_FP as int) <= t_apex && k * (STEP_FP as int) <= MAX_TIME_FP as int),
        (k - 1) * (STEP_FP as int) <= t_apex || k == 0,
        (k - 1) * (STEP_FP as int) <= MAX_TIME_FP as int || k == 0,
    ensures
        k == half_len(t_apex),
{
    let s = STEP_FP as int;
    let cap = if t_apex >= MAX_TIME_FP as int {
        MAX_TIME_FP as int
    } else {
        t_apex
    };
    assert(k >= 1);
    assert((k - 1) * s <= cap && cap < k * s) by (nonlinear_arith)
        requires
            s == 10_000,
            1 <= k,
            cap == if t_apex >= MAX_TIME_FP as int { MAX_TIME_FP as int } else { t_apex },
            t_apex >= 0,
            !(k * s <= t_apex && k * s <= MAX_TIME_FP as int),
            (k - 1) * s <= t_apex,
            (k - 1) * s <= MAX_TIME_FP as int,
            MAX_TIME_FP as int == 10_000 * s;
    assert(cap / s == k - 1) by (nonlinear_arith)
        requires
            s == 10_000,
            (k - 1) * s <= cap < k * s,
            0 <= cap;
}

/// The doubled half-profile speed over the exact mathematical model (no
/// rounding, no saturation): `2 a t^3 - 3 a t_apex t^2 + 2 v0`.
pub open spec fn vel2_math(a: int, t_apex: int, v0: int, t: int) -> int {
    2 * a * t * t * t - 3 * a * t_apex * t * t + 2 * v0
}

/// Junction continuity of the velocity profile (exact model): when the apex
/// time satisfies its defining cube relation `a t_min^3 == 2 (v_in - v_min)`,
/// the inflow half evaluated at `t_min` equals the apex speed `v_min`, and
/// the outflow half starts at that same speed, so the concatenated series is
/// continuous at the junction.
pub proof fn lemma_velocity_junction_continuity(
    c_in: int,
    c_out: int,
    v_in: int,
    v_min: int,
    t_min: int,
    t_next: int,
)
    requires
        c_in * t_min * t_min * t_min == 2 * (v_in - v_min),
    ensures
        vel2_math(c_in, t_min, v_in, t_min) == 2 * v_min,
        vel2_math(-c_out, t_next, v_min, 0) == 2 * v_min,
{
    assert(vel2_math(c_in, t_min, v_in, t_min) == 2 * v_min) by (nonlinear_arith)
        requires
            c_in * t_min * t_min * t_min == 2 * (v_in - v_min);
    assert(vel2_math(-c_out, t_next, v_min, 0) == 2 * v_min) by (nonlinear_arith);
}

/// The `x` half of the trapezoidal position integral: positions start at the
/// origin and each step adds `(t_i - t_{i-1}) (v_{i-1} + v_i) / 2` with the
/// crate's rounding.
pub open spec fn pos_x_at(vel: Seq<Vec2>, i: int) -> int
    decreases i,
{
    if i <= 0 {
        0
    } else {
        add_sat_spec(
            pos_x_at(vel, i - 1),
            mul_sat_spec(
                mul_sat_spec(
                    sub_sat_spec(vel[i].x as int, vel[i - 1].x as int),
                    add_sat_spec(vel[i - 1].y as int, vel[i].y as int),
                ),
                500_000,
            ),
        )
    }
}

/// The time coordinate attached to position sample `i`: the midpoint of the
/// two velocity sample times (sample 0 keeps time zero).
pub open spec fn pos_t_at(vel: Seq<Vec2>, i: int) -> int {
    if i <= 0 {
        0
    } else {
        mul_sat_spec(add_sat_spec(vel[i - 1].x as int, vel[i].x as int), 500_000)
    }
}

/// Builds the position-versus-time series by trapezoidal integration of the
/// velocity series, and records the position of the sample window containing
/// the apex time `t_min` (zero when no window contains it).
pub fn integrate_positions(vel: &Vec<Vec2>, t_min: i64) -> (r: (Vec<Vec2>, i64))
    requires
        forall|i: int| 0 <= i < vel@.len() ==> #[trigger] vec2_in_range(vel@[i]),
        in_range(t_min as int),
    ensures
        r.0@.len() == vel@.len(),
        forall|i: int|
            0 <= i < vel@.len() ==> #[trigger] r.0@[i] == (Vec2 {
                x: pos_t_at(vel@, i) as i64,
                y: pos_x_at(vel@, i) as i64,
            }),
        r.1 as int == apex_pos_x(vel@, t_min as int, vel@.len() as int),
        in_range(r.1 as int),
{
    let n = vel.len();
    let mut pos: Vec<Vec2> = Vec::new();
    let mut x_apex: i64 = 0;
    if n > 0 {
        pos.push(Vec2 { x: 0, y: 0 });
    }
    let mut i: usize = 1;
    while i < n
        invariant
            n == vel@.len(),
            forall|j: int| 0 <= j < vel@.len() ==> #[trigger] vec2_in_range(vel@[j]),
            in_range(t_min as int),
            1 <= i || n == 0,
            i <= n || (n == 0 && i == 1),
            pos@.len() == if n == 0 { 0int } else { i as int },
            forall|j: int|
                0 <= j < pos@.len() ==> #[trigger] pos@[j] == (Vec2 {
                    x: pos_t_at(vel@, j) as i64,
                    y: pos_x_at(vel@, j) as i64,
                }),
            x_apex as int == apex_pos_x(vel@, t_min as int, i as int),
            in_range(x_apex as int),
        decreases n - i,
    {
        let t0 = vel[i - 1].x;
        let v0 = vel[i - 1].y;
        let t1 = vel[i].x;
        let v1 = vel[i].y;
        let x0 = pos[i - 1].y;
        proof {
            assert(vec2_in_range(vel@[i as int]));
            assert(vec2_in_range(vel@[i as int - 1]));
            assert(in_range(pos@[i as int - 1].y as int)) by {
                lemma_pos_x_in_range(vel@, i as int - 1);
            };
        }
        if t0 <= t_min && t_min < t1 {
            x_apex = x0;
        }
        let dx = mul_sat(mul_sat(sub_sat(t1, t0), add_sat(v0, v1)), 500_000);
        let x1 = add_sat(x0, dx);
        let tm = mul_sat(add_sat(t0, t1), 500_000);
        pos.push(Vec2 { x: tm, y: x1 });
        i = i + 1;
    }
    (pos, x_apex)
}

/// Every trapezoidal position stays in the saturating range.
pub proof fn lemma_pos_x_in_range(vel: Seq<Vec2>, i: int)
    ensures
        in_range(pos_x_at(vel, i)),
    decreases i,
{
    if i <= 0 {
    } else {
        lemma_pos_x_in_range(vel, i - 1);
    }
}

/// The recorded apex position after scanning the first `n` sample windows:
/// the position at the left edge of the last window `[t_{i-1}, t_i)` that
/// contains `t_min`, or zero if none does.
pub open spec fn apex_pos_x(vel: Seq<Vec2>, t_min: int, n: int) -> int
    decreases n,
{
    if n <= 1 {
        0
    } else {
        if vel[n - 2].x <= t_min < vel[n - 1].x {
            pos_x_at(vel, n - 2)
        } else {
            apex_pos_x(vel, t_min, n - 1)
        }
    }
}

} // verus!
