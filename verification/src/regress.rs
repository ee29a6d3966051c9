//! The empirically-fit regression model: every distribution parameter used
//! by the samplers is an affine function of flow and geometry covariates,
//! and every shape, scale or standard deviation is floored to the smallest
//! positive representable value so the distribution stays well-defined.
//! Means are not floored.  A degenerate covariate combination is never an
//! error.

use vstd::prelude::*;
use crate::fixed::add_sat;
use crate::fixed::add_sat_spec;
use crate::fixed::in_range;
use crate::fixed::mul_sat;
use crate::fixed::mul_sat_spec;

verus! {

/// The positive floor applied to every shape, scale and standard deviation:
/// one micro-unit, the fixed-point analogue of a smallest positive epsilon.
pub open spec fn eps_floor_spec(x: int) -> int {
    if x < 1 {
        1
    } else {
        x
    }
}

/// Executable mirror of [`eps_floor_spec`].
pub fn eps_floor(x: i64) -> (r: i64)
    requires
        in_range(x as int),
    ensures
        r as int == eps_floor_spec(x as int),
        in_range(r as int),
        r >= 1,
{
    if x < 1 {
        1
    } else {
        x
    }
}

/// One regression term: coefficient times covariate.
pub open spec fn rt(c: int, v: int) -> int {
    mul_sat_spec(c, v)
}

/// Saturating sum of two regression terms.
pub open spec fn rs(x: int, y: int) -> int {
    add_sat_spec(x, y)
}

/// Gamma shape of the left-turn inflow steepness `c_in`.
pub open spec fn lt_c_in_shape_spec(v_in: int, angle: int, padding: int) -> int {
    eps_floor_spec(rs(2_090_000, rs(rt(256_000, v_in), rs(rt(-15_500, angle), rt(-168_000, padding)))))
}

/// Gamma scale of the left-turn inflow steepness `c_in`.
pub open spec fn lt_c_in_scale_spec(v_in: int, radius: int, padding: int) -> int {
    eps_floor_spec(rs(57_300, rs(rt(-1_730, v_in), rs(rt(-1_090, radius), rt(2_190, padding)))))
}

/// Gamma shape of the left-turn outflow steepness `c_out`.
pub open spec fn lt_c_out_shape_spec(padding: int, v_out: int) -> int {
    eps_floor_spec(rs(1_400_000, rs(rt(63_300, padding), rt(-22_400, v_out))))
}

/// Gamma scale of the left-turn outflow steepness `c_out`.
pub open spec fn lt_c_out_scale_spec(v_out: int) -> int {
    eps_floor_spec(rs(77_200, rt(-3_550, v_out)))
}

/// Normal mean of the left-turn apex speed `v_min`.
pub open spec fn lt_v_min_mean_spec(
    v_in: int,
    radius: int,
    angle: int,
    padding: int,
    large: int,
) -> int {
    rs(
        -301_000,
        rs(
            rt(90_800, v_in),
            rs(rt(60_700, radius), rs(rt(38_700, angle), rs(rt(233_000, padding), rt(-496_000, large)))),
        ),
    )
}

/// Normal standard deviation of the left-turn apex speed `v_min`.
pub open spec fn lt_v_min_std_spec(padding: int) -> int {
    eps_floor_spec(rs(665_000, rt(41_900, padding)))
}

/// Normal mean of the left-turn apex offset `x_min`.
pub open spec fn lt_x_min_mean_spec(radius: int, angle: int, padding: int) -> int {
    rs(1_420_000, rs(rt(586_000, radius), rs(rt(89_600, angle), rt(577_000, padding))))
}

/// Normal standard deviation of the left-turn apex offset `x_min`.
pub open spec fn lt_x_min_std_spec(radius: int, padding: int) -> int {
    eps_floor_spec(rs(135_000, rs(rt(144_000, radius), rt(336_000, padding))))
}

/// Normal mean of the left-turn minimum radius `r_min`.
pub open spec fn lt_r_min_mean_spec(angle: int, radius: int, padding: int) -> int {
    rs(rt(127_000, angle), rs(rt(390_000, radius), rs(rt(862_000, padding), -6_460_000)))
}

/// Normal standard deviation of the left-turn minimum radius `r_min`.
pub open spec fn lt_r_min_std_spec(angle: int, radius: int, padding: int) -> int {
    eps_floor_spec(rs(rt(36_300, angle), rs(rt(62_400, radius), rs(rt(118_000, padding), -2_860_000))))
}

/// Entry clothoid parameter of a left turn (deterministic regression).
pub open spec fn lt_a1_spec(angle: int, radius: int, padding: int, v_min: int) -> int {
    rs(
        -1_650_000,
        rs(rt(40_400, angle), rs(rt(334_000, radius), rs(rt(461_000, padding), rt(369_000, v_min)))),
    )
}

/// Exit clothoid parameter of a left turn (deterministic regression).
pub open spec fn lt_a2_spec(radius: int, large: int, padding: int, v_min: int) -> int {
    rs(
        2_330_000,
        rs(rt(335_000, radius), rs(rt(2_050_000, large), rs(rt(1_040_000, padding), rt(268_000, v_min)))),
    )
}

/// All left-turn regression parameters that depend on the drawn flow values
/// alone.
pub struct LtParams {
    pub c_in_shape: i64,
    pub c_in_scale: i64,
    pub c_out_shape: i64,
    pub c_out_scale: i64,
    pub v_min_mean: i64,
    pub v_min_std: i64,
    pub x_min_mean: i64,
    pub x_min_std: i64,
    pub r_min_mean: i64,
    pub r_min_std: i64,
}

/// Computes the first-stage left-turn regression parameters.
pub fn lt_params(v_in: i64, v_out: i64, angle: i64, radius: i64, padding: i64, large: bool) -> (r:
    LtParams)
    requires
        in_range(v_in as int),
        in_range(v_out as int),
        in_range(angle as int),
        in_range(radius as int),
        in_range(padding as int),
    ensures
        r.c_in_shape as int == lt_c_in_shape_spec(v_in as int, angle as int, padding as int),
        r.c_in_scale as int == lt_c_in_scale_spec(v_in as int, radius as int, padding as int),
        r.c_out_shape as int == lt_c_out_shape_spec(padding as int, v_out as int),
        r.c_out_scale as int == lt_c_out_scale_spec(v_out as int),
        r.v_min_mean as int == lt_v_min_mean_spec(
            v_in as int,
            radius as int,
            angle as int,
            padding as int,
            dummy_fp(large),
        ),
        r.v_min_std as int == lt_v_min_std_spec(padding as int),
        r.x_min_mean as int == lt_x_min_mean_spec(radius as int, angle as int, padding as int),
        r.x_min_std as int == lt_x_min_std_spec(radius as int, padding as int),
        r.r_min_mean as int == lt_r_min_mean_spec(angle as int, radius as int, padding as int),
        r.r_min_std as int == lt_r_min_std_spec(angle as int, radius as int, padding as int),
{
    let big = if large {
        1_000_000i64
    } else {
        0i64
    };
    LtParams {
        c_in_shape: eps_floor(
            add_sat(
                2_090_000,
                add_sat(
                    mul_sat(256_000, v_in),
                    add_sat(mul_sat(-15_500, angle), mul_sat(-168_000, padding)),
                ),
            ),
        ),
        c_in_scale: eps_floor(
            add_sat(
                57_300,
                add_sat(
                    mul_sat(-1_730, v_in),
                    add_sat(mul_sat(-1_090, radius), mul_sat(2_190, padding)),
                ),
            ),
        ),
        c_out_shape: eps_floor(
            add_sat(1_400_000, add_sat(mul_sat(63_300, padding), mul_sat(-22_400, v_out))),
        ),
        c_out_scale: eps_floor(add_sat(77_200, mul_sat(-3_550, v_out))),
        v_min_mean: add_sat(
            -301_000,
            add_sat(
                mul_sat(90_800, v_in),
                add_sat(
                    mul_sat(60_700, radius),
                    add_sat(
                        mul_sat(38_700, angle),
                        add_sat(mul_sat(233_000, padding), mul_sat(-496_000, big)),
                    ),
                ),
            ),
        ),
        v_min_std: eps_floor(add_sat(665_000, mul_sat(41_900, padding))),
        x_min_mean: add_sat(
            1_420_000,
            add_sat(
                mul_sat(586_000, radius),
                add_sat(mul_sat(89_600, angle), mul_sat(577_000, padding)),
            ),
        ),
        x_min_std: eps_floor(
            add_sat(135_000, add_sat(mul_sat(144_000, radius), mul_sat(336_000, padding))),
        ),
        r_min_mean: add_sat(
            mul_sat(127_000, angle),
            add_sat(mul_sat(390_000, radius), add_sat(mul_sat(862_000, padding), -6_460_000)),
        ),
        r_min_std: eps_floor(
            add_sat(
                mul_sat(36_300, angle),
                add_sat(mul_sat(62_400, radius), add_sat(mul_sat(118_000, padding), -2_860_000)),
            ),
        ),
    }
}

/// The fixed-point dummy of a boolean covariate.
pub open spec fn dummy_fp(b: bool) -> int {
    if b {
        1_000_000
    } else {
        0
    }
}

/// Computes both left-turn clothoid parameters from the drawn apex speed.
pub fn lt_clothoid_params(angle: i64, radius: i64, padding: i64, large: bool, v_min: i64) -> (r: (
    i64,
    i64,
))
    requires
        in_range(angle as int),
        in_range(radius as int),
        in_range(padding as int),
        in_range(v_min as int),
    ensures
        r.0 as int == lt_a1_spec(angle as int, radius as int, padding as int, v_min as int),
        r.1 as int == lt_a2_spec(radius as int, dummy_fp(large), padding as int, v_min as int),
{
    let big = if large {
        1_000_000i64
    } else {
        0i64
    };
    let a1 = add_sat(
        -1_650_000,
        add_sat(
            mul_sat(40_400, angle),
            add_sat(
                mul_sat(334_000, radius),
                add_sat(mul_sat(461_000, padding), mul_sat(369_000, v_min)),
            ),
        ),
    );
    let a2 = add_sat(
        2_330_000,
        add_sat(
            mul_sat(335_000, radius),
            add_sat(
                mul_sat(2_050_000, big),
                add_sat(mul_sat(1_040_000, padding), mul_sat(268_000, v_min)),
            ),
        ),
    );
    (a1, a2)
}

/// Gamma shape of the right-turn inflow steepness `c_in`.
pub open spec fn rt_c_in_shape_spec(v_in: int, angle: int) -> int {
    eps_floor_spec(rs(rt(320_000, v_in), rt(-15_000, angle)))
}

/// Gamma scale of the right-turn inflow steepness `c_in`.
pub open spec fn rt_c_in_scale_spec(v_in: int) -> int {
    eps_floor_spec(rt(334, v_in))
}

/// Gamma shape of the right-turn outflow steepness `c_out`.
pub open spec fn rt_c_out_shape_spec(v_in: int, angle: int) -> int {
    eps_floor_spec(rs(rt(27_500, v_in), rt(10_800, angle)))
}

/// Gamma scale of the right-turn outflow steepness `c_out`.
pub open spec fn rt_c_out_scale_spec(v_in: int, hn_out: int) -> int {
    eps_floor_spec(rs(rt(228, v_in), rt(2_220, hn_out)))
}

/// Normal mean of the right-turn apex speed `v_min`.
pub open spec fn rt_v_min_mean_spec(v_in: int, angle: int, hn_in: int) -> int {
    rs(rt(488_000, v_in), rs(rt(23_600, angle), rt(32_500, hn_in)))
}

/// Normal standard deviation of the right-turn apex speed `v_min`.
pub open spec fn rt_v_min_std_spec(v_in: int, angle: int) -> int {
    eps_floor_spec(rs(rt(26_100, v_in), rt(6_890, angle)))
}

/// Normal mean of the right-turn apex offset `x_min`.
pub open spec fn rt_x_min_mean_spec(v_in: int, angle: int, hn_in: int) -> int {
    rs(rt(917_000, v_in), rs(rt(150_000, angle), rt(218_000, hn_in)))
}

/// Normal standard deviation of the right-turn apex offset `x_min`.
pub open spec fn rt_x_min_std_spec(v_in: int, angle: int, hn_in: int) -> int {
    eps_floor_spec(rs(rt(-438_000, v_in), rs(rt(97_500, angle), rt(101_000, hn_in))))
}

/// Weibull shape of the right-turn minimum radius `r_min`.
pub open spec fn rt_r_min_shape_spec(angle: int, hn_min: int) -> int {
    eps_floor_spec(rs(rt(28_200, angle), rt(80_700, hn_min)))
}

/// Weibull scale of the right-turn minimum radius `r_min`.
pub open spec fn rt_r_min_scale_spec(angle: int, v_min: int) -> int {
    eps_floor_spec(rs(rt(162_000, angle), rt(1_430_000, v_min)))
}

/// Entry clothoid parameter of a right turn (deterministic regression).
pub open spec fn rt_a1_spec(v_min: int, r_min: int, hn_in: int) -> int {
    rs(6_090_000, rs(rt(985_000, v_min), rs(rt(186_000, r_min), rt(235_000, hn_in))))
}

/// Exit clothoid parameter of a right turn (deterministic regression).
pub open spec fn rt_a2_spec(v_min: int, r_min: int, hn_out: int) -> int {
    rs(6_810_000, rs(rt(611_000, v_min), rs(rt(313_000, r_min), rt(188_000, hn_out))))
}

/// All right-turn regression parameters that depend on the drawn flow values
/// alone.
pub struct RtParams {
    pub c_in_shape: i64,
    pub c_in_scale: i64,
    pub c_out_shape: i64,
    pub c_out_scale: i64,
    pub v_min_mean: i64,
    pub v_min_std: i64,
    pub x_min_mean: i64,
    pub x_min_std: i64,
    pub r_min_shape: i64,
}

/// Computes the first-stage right-turn regression parameters.
pub fn rt_params(v_in: i64, angle: i64, hn_in: i64, hn_out: i64) -> (r: RtParams)
    requires
        in_range(v_in as int),
        in_range(angle as int),
        in_range(hn_in as int),
        in_range(hn_out as int),
    ensures
        r.c_in_shape as int == rt_c_in_shape_spec(v_in as int, angle as int),
        r.c_in_scale as int == rt_c_in_scale_spec(v_in as int),
        r.c_out_shape as int == rt_c_out_shape_spec(v_in as int, angle as int),
        r.c_out_scale as int == rt_c_out_scale_spec(v_in as int, hn_out as int),
        r.v_min_mean as int == rt_v_min_mean_spec(v_in as int, angle as int, hn_in as int),
        r.v_min_std as int == rt_v_min_std_spec(v_in as int, angle as int),
        r.x_min_mean as int == rt_x_min_mean_spec(v_in as int, angle as int, hn_in as int),
        r.x_min_std as int == rt_x_min_std_spec(v_in as int, angle as int, hn_in as int),
        r.r_min_shape as int == rt_r_min_shape_spec(
            angle as int,
            if hn_in < hn_out { hn_in as int } else { hn_out as int },
        ),
{
    let hn_min = if hn_in < hn_out {
        hn_in
    } else {
        hn_out
    };
    RtParams {
        c_in_shape: eps_floor(add_sat(mul_sat(320_000, v_in), mul_sat(-15_000, angle))),
        c_in_scale: eps_floor(mul_sat(334, v_in)),
        c_out_shape: eps_floor(add_sat(mul_sat(27_500, v_in), mul_sat(10_800, angle))),
        c_out_scale: eps_floor(add_sat(mul_sat(228, v_in), mul_sat(2_220, hn_out))),
        v_min_mean: add_sat(
            mul_sat(488_000, v_in),
            add_sat(mul_sat(23_600, angle), mul_sat(32_500, hn_in)),
        ),
        v_min_std: eps_floor(add_sat(mul_sat(26_100, v_in), mul_sat(6_890, angle))),
        x_min_mean: add_sat(
            mul_sat(917_000, v_in),
            add_sat(mul_sat(150_000, angle), mul_sat(218_000, hn_in)),
        ),
        x_min_std: eps_floor(
            add_sat(
                mul_sat(-438_000, v_in),
                add_sat(mul_sat(97_500, angle), mul_sat(101_000, hn_in)),
            ),
        ),
        r_min_shape: eps_floor(add_sat(mul_sat(28_200, angle), mul_sat(80_700, hn_min))),
    }
}

/// Computes the Weibull scale of the right-turn minimum radius from the
/// drawn apex speed.
pub fn rt_r_min_scale(angle: i64, v_min: i64) -> (r: i64)
    requires
        in_range(angle as int),
        in_range(v_min as int),
    ensures
        r as int == rt_r_min_scale_spec(angle as int, v_min as int),
{
    eps_floor(add_sat(mul_sat(162_000, angle), mul_sat(1_430_000, v_min)))
}

/// Computes both right-turn clothoid parameters from the drawn apex speed
/// and minimum radius.
pub fn rt_clothoid_params(v_min: i64, r_min: i64, hn_in: i64, hn_out: i64) -> (r: (i64, i64))
    requires
        in_range(v_min as int),
        in_range(r_min as int),
        in_range(hn_in as int),
        in_range(hn_out as int),
    ensures
        r.0 as int == rt_a1_spec(v_min as int, r_min as int, hn_in as int),
        r.1 as int == rt_a2_spec(v_min as int, r_min as int, hn_out as int),
{
    let a1 = add_sat(
        6_090_000,
        add_sat(
            mul_sat(985_000, v_min),
            add_sat(mul_sat(186_000, r_min), mul_sat(235_000, hn_in)),
        ),
    );
    let a2 = add_sat(
        6_810_000,
        add_sat(
            mul_sat(611_000, v_min),
            add_sat(mul_sat(313_000, r_min), mul_sat(188_000, hn_out)),
        ),
    );
    (a1, a2)
}


/// Gamma shape of the crossing first-half speed `v_1`.
pub open spec fn ped_v1_shape_spec(v_init: int, width: int, far: int) -> int {
    eps_floor_spec(rs(rt(7_470_000, v_init), rs(rt(720_000, width), rs(rt(4_190_000, far), 1_930_000))))
}

/// Gamma scale of the crossing first-half speed `v_1`.
pub open spec fn ped_v1_scale_spec(v_init: int, width: int, far: int, a_green: int) -> int {
    eps_floor_spec(
        rs(
            rt(3_910, v_init),
            rs(rt(-1_060, width), rs(rt(-4_140, far), rs(rt(1_850, a_green), 69_700))),
        ),
    )
}

/// Gamma shape of the crossing last-half speed `v_2`.
pub open spec fn ped_v2_shape_spec(v_1: int, width: int, far: int) -> int {
    eps_floor_spec(rs(rt(-2_100_000, v_1), rs(rt(695_000, width), rs(rt(4_100_000, far), 22_800_000))))
}

/// Gamma scale of the crossing last-half speed `v_2`.
pub open spec fn ped_v2_scale_spec(v_1: int, width: int, far: int) -> int {
    eps_floor_spec(rs(rt(19_900, v_1), rs(rt(-600, width), rs(rt(-1_590, far), 25_600))))
}

/// Weibull shape of the first crossing waypoint `x_1`.
pub open spec fn ped_x1_shape_spec(
    cw_width: int,
    cw_setback: int,
    far: int,
    diag: int,
    center: int,
    x_init: int,
    lt_flow: int,
) -> int {
    eps_floor_spec(
        rs(
            rt(210_000, cw_width),
            rs(
                rt(-20_000, cw_setback),
                rs(
                    rt(-220_000, far),
                    rs(
                        rt(-1_030_000, diag),
                        rs(rt(-1_060_000, center), rs(rt(100_000, x_init), rs(rt(-6_360_000, lt_flow), 2_110_000))),
                    ),
                ),
            ),
        ),
    )
}

/// Weibull scale of the first crossing waypoint `x_1`.
pub open spec fn ped_x1_scale_spec(width: int, back_flow: int) -> int {
    eps_floor_spec(rs(rt(-40_000, width), rs(rt(-660_000, back_flow), 2_310_000)))
}

/// Weibull shape of the middle crossing waypoint `x_2`.
pub open spec fn ped_x2_shape_spec(
    cw_width: int,
    diag: int,
    center: int,
    x_1: int,
    lt_flow: int,
    fwd_flow: int,
) -> int {
    eps_floor_spec(
        rs(
            rt(-540_000, cw_width),
            rs(
                rt(-390_000, diag),
                rs(
                    rt(440_000, center),
                    rs(rt(830_000, x_1), rs(rt(110_000, lt_flow), rs(rt(2_160_000, fwd_flow), 3_510_000))),
                ),
            ),
        ),
    )
}

/// Weibull scale of the middle crossing waypoint `x_2`.
pub open spec fn ped_x2_scale_spec(cw_width: int, back_flow: int) -> int {
    eps_floor_spec(rs(rt(1_130_000, cw_width), rs(rt(-950_000, back_flow), -1_860_000)))
}

/// Weibull shape of the last crossing waypoint `x_3`.
pub open spec fn ped_x3_shape_spec(
    cw_width: int,
    cw_setback: int,
    far: int,
    diag: int,
    center: int,
    x_2: int,
) -> int {
    eps_floor_spec(
        rs(
            rt(450_000, cw_width),
            rs(
                rt(20_000, cw_setback),
                rs(
                    rt(150_000, far),
                    rs(rt(-660_000, diag), rs(rt(-220_000, center), rs(rt(200_000, x_2), -1_190_000))),
                ),
            ),
        ),
    )
}

/// Weibull scale of the last crossing waypoint `x_3`.
pub open spec fn ped_x3_scale_spec(cw_width: int, lt_flow: int, fwd_flow: int, back_flow: int) -> int {
    eps_floor_spec(
        rs(
            rt(1_000_000, cw_width),
            rs(
                rt(-10_500_000, lt_flow),
                rs(rt(6_930_000, fwd_flow), rs(rt(-1_690_000, rs(fwd_flow, back_flow)), -1_940_000)),
            ),
        ),
    )
}

/// Computes the crossing first-half speed parameters.
pub fn ped_v1_params(v_init: i64, width: i64, far_side: bool, a_green: i64) -> (r: (i64, i64))
    requires
        in_range(v_init as int),
        in_range(width as int),
        in_range(a_green as int),
    ensures
        r.0 as int == ped_v1_shape_spec(v_init as int, width as int, dummy_fp(far_side)),
        r.1 as int == ped_v1_scale_spec(v_init as int, width as int, dummy_fp(far_side), a_green as int),
{
    let far = if far_side {
        1_000_000i64
    } else {
        0i64
    };
    let shape = eps_floor(
        add_sat(
            mul_sat(7_470_000, v_init),
            add_sat(mul_sat(720_000, width), add_sat(mul_sat(4_190_000, far), 1_930_000)),
        ),
    );
    let scale = eps_floor(
        add_sat(
            mul_sat(3_910, v_init),
            add_sat(
                mul_sat(-1_060, width),
                add_sat(mul_sat(-4_140, far), add_sat(mul_sat(1_850, a_green), 69_700)),
            ),
        ),
    );
    (shape, scale)
}

/// Computes the crossing last-half speed parameters from the drawn `v_1`.
pub fn ped_v2_params(v_1: i64, width: i64, far_side: bool) -> (r: (i64, i64))
    requires
        in_range(v_1 as int),
        in_range(width as int),
    ensures
        r.0 as int == ped_v2_shape_spec(v_1 as int, width as int, dummy_fp(far_side)),
        r.1 as int == ped_v2_scale_spec(v_1 as int, width as int, dummy_fp(far_side)),
{
    let far = if far_side {
        1_000_000i64
    } else {
        0i64
    };
    let shape = eps_floor(
        add_sat(
            mul_sat(-2_100_000, v_1),
            add_sat(mul_sat(695_000, width), add_sat(mul_sat(4_100_000, far), 22_800_000)),
        ),
    );
    let scale = eps_floor(
        add_sat(
            mul_sat(19_900, v_1),
            add_sat(mul_sat(-600, width), add_sat(mul_sat(-1_590, far), 25_600)),
        ),
    );
    (shape, scale)
}

/// Computes the first crossing waypoint parameters.
pub fn ped_x1_params(
    width: i64,
    cw_width: i64,
    cw_setback: i64,
    far_side: bool,
    diagonal: bool,
    center_side: bool,
    x_init: i64,
    lt_flow: i64,
    back_flow: i64,
) -> (r: (i64, i64))
    requires
        in_range(width as int),
        in_range(cw_width as int),
        in_range(cw_setback as int),
        in_range(x_init as int),
        in_range(lt_flow as int),
        in_range(back_flow as int),
    ensures
        r.0 as int == ped_x1_shape_spec(
            cw_width as int,
            cw_setback as int,
            dummy_fp(far_side),
            dummy_fp(diagonal),
            dummy_fp(center_side),
            x_init as int,
            lt_flow as int,
        ),
        r.1 as int == ped_x1_scale_spec(width as int, back_flow as int),
{
    let far = if far_side {
        1_000_000i64
    } else {
        0i64
    };
    let diag = if diagonal {
        1_000_000i64
    } else {
        0i64
    };
    let center = if center_side {
        1_000_000i64
    } else {
        0i64
    };
    let shape = eps_floor(
        add_sat(
            mul_sat(210_000, cw_width),
            add_sat(
                mul_sat(-20_000, cw_setback),
                add_sat(
                    mul_sat(-220_000, far),
                    add_sat(
                        mul_sat(-1_030_000, diag),
                        add_sat(
                            mul_sat(-1_060_000, center),
                            add_sat(mul_sat(100_000, x_init), add_sat(mul_sat(-6_360_000, lt_flow), 2_110_000)),
                        ),
                    ),
                ),
            ),
        ),
    );
    let scale = eps_floor(
        add_sat(mul_sat(-40_000, width), add_sat(mul_sat(-660_000, back_flow), 2_310_000)),
    );
    (shape, scale)
}

/// Computes the middle crossing waypoint parameters from the clamped `x_1`.
pub fn ped_x2_params(
    cw_width: i64,
    diagonal: bool,
    center_side: bool,
    x_1: i64,
    lt_flow: i64,
    fwd_flow: i64,
    back_flow: i64,
) -> (r: (i64, i64))
    requires
        in_range(cw_width as int),
        in_range(x_1 as int),
        in_range(lt_flow as int),
        in_range(fwd_flow as int),
        in_range(back_flow as int),
    ensures
        r.0 as int == ped_x2_shape_spec(
            cw_width as int,
            dummy_fp(diagonal),
            dummy_fp(center_side),
            x_1 as int,
            lt_flow as int,
            fwd_flow as int,
        ),
        r.1 as int == ped_x2_scale_spec(cw_width as int, back_flow as int),
{
    let diag = if diagonal {
        1_000_000i64
    } else {
        0i64
    };
    let center = if center_side {
        1_000_000i64
    } else {
        0i64
    };
    let shape = eps_floor(
        add_sat(
            mul_sat(-540_000, cw_width),
            add_sat(
                mul_sat(-390_000, diag),
                add_sat(
                    mul_sat(440_000, center),
                    add_sat(
                        mul_sat(830_000, x_1),
                        add_sat(mul_sat(110_000, lt_flow), add_sat(mul_sat(2_160_000, fwd_flow), 3_510_000)),
                    ),
                ),
            ),
        ),
    );
    let scale = eps_floor(
        add_sat(mul_sat(1_130_000, cw_width), add_sat(mul_sat(-950_000, back_flow), -1_860_000)),
    );
    (shape, scale)
}

/// Computes the last crossing waypoint parameters from the clamped `x_2`.
pub fn ped_x3_params(
    cw_width: i64,
    cw_setback: i64,
    far_side: bool,
    diagonal: bool,
    center_side: bool,
    x_2: i64,
    lt_flow: i64,
    fwd_flow: i64,
    back_flow: i64,
) -> (r: (i64, i64))
    requires
        in_range(cw_width as int),
        in_range(cw_setback as int),
        in_range(x_2 as int),
        in_range(lt_flow as int),
        in_range(fwd_flow as int),
        in_range(back_flow as int),
    ensures
        r.0 as int == ped_x3_shape_spec(
            cw_width as int,
            cw_setback as int,
            dummy_fp(far_side),
            dummy_fp(diagonal),
            dummy_fp(center_side),
            x_2 as int,
        ),
        r.1 as int == ped_x3_scale_spec(cw_width as int, lt_flow as int, fwd_flow as int, back_flow as int),
{
    let far = if far_side {
        1_000_000i64
    } else {
        0i64
    };
    let diag = if diagonal {
        1_000_000i64
    } else {
        0i64
    };
    let center = if center_side {
        1_000_000i64
    } else {
        0i64
    };
    let shape = eps_floor(
        add_sat(
            mul_sat(450_000, cw_width),
            add_sat(
                mul_sat(20_000, cw_setback),
                add_sat(
                    mul_sat(150_000, far),
                    add_sat(
                        mul_sat(-660_000, diag),
                        add_sat(mul_sat(-220_000, center), add_sat(mul_sat(200_000, x_2), -1_190_000)),
                    ),
                ),
            ),
        ),
    );
    let scale = eps_floor(
        add_sat(
            mul_sat(1_000_000, cw_width),
            add_sat(
                mul_sat(-10_500_000, lt_flow),
                add_sat(
                    mul_sat(6_930_000, fwd_flow),
                    add_sat(mul_sat(-1_690_000, add_sat(fwd_flow, back_flow)), -1_940_000),
                ),
            ),
        ),
    );
    (shape, scale)
}

/// Gamma shape of the inter-green contact speed `v_0`.
pub open spec fn ig_v0_shape_spec(d_init: int) -> int {
    eps_floor_spec(rs(rt(256_000, d_init), 24_100_000))
}

/// Gamma scale of the inter-green contact speed `v_0`.
pub open spec fn ig_v0_scale_spec(v_init: int) -> int {
    eps_floor_spec(rs(rt(37_900, v_init), 21_800))
}

/// Gamma shape of the inter-green first-half speed `v_1`.
pub open spec fn ig_v1_shape_spec(v_0: int, width: int) -> int {
    eps_floor_spec(rs(rt(3_880_000, v_0), rs(rt(129_000, width), -3_510_000)))
}

/// Gamma scale of the inter-green first-half speed `v_1`.
pub open spec fn ig_v1_scale_spec(v_0: int, t_blink: int) -> int {
    eps_floor_spec(rs(rt(-14_400, v_0), rs(rt(15_800, t_blink), 170_000)))
}

/// Corrective shift added to the drawn inter-green `v_1`.
pub open spec fn ig_v1_shift_spec(fwd_back_flow: int) -> int {
    eps_floor_spec(rs(rt(-55, fwd_back_flow), 777_000))
}

/// Gamma shape of the inter-green last-half speed `v_2`.
pub open spec fn ig_v2_shape_spec(v_1: int) -> int {
    eps_floor_spec(rs(rt(580_000, v_1), 6_670_000))
}

/// Gamma scale of the inter-green last-half speed `v_2`.
pub open spec fn ig_v2_scale_spec(v_1: int) -> int {
    eps_floor_spec(rs(rt(86_200, v_1), -3_330))
}

/// Corrective shift added to the drawn inter-green `v_2`.
pub open spec fn ig_v2_shift_spec(v_1: int, far: int) -> int {
    eps_floor_spec(rs(rt(218_000, v_1), rs(rt(-59_700, far), 499_000)))
}

/// Computes the inter-green contact speed parameters.
pub fn ig_v0_params(d_init: i64, v_init: i64) -> (r: (i64, i64))
    requires
        in_range(d_init as int),
        in_range(v_init as int),
    ensures
        r.0 as int == ig_v0_shape_spec(d_init as int),
        r.1 as int == ig_v0_scale_spec(v_init as int),
{
    let shape = eps_floor(add_sat(mul_sat(256_000, d_init), 24_100_000));
    let scale = eps_floor(add_sat(mul_sat(37_900, v_init), 21_800));
    (shape, scale)
}

/// Computes the inter-green first-half speed parameters from the drawn
/// contact speed.
pub fn ig_v1_params(v_0: i64, width: i64, t_blink: i64, fwd_back_flow: i64) -> (r: (i64, i64, i64))
    requires
        in_range(v_0 as int),
        in_range(width as int),
        in_range(t_blink as int),
        in_range(fwd_back_flow as int),
    ensures
        r.0 as int == ig_v1_shape_spec(v_0 as int, width as int),
        r.1 as int == ig_v1_scale_spec(v_0 as int, t_blink as int),
        r.2 as int == ig_v1_shift_spec(fwd_back_flow as int),
{
    let shape = eps_floor(add_sat(mul_sat(3_880_000, v_0), add_sat(mul_sat(129_000, width), -3_510_000)));
    let scale = eps_floor(add_sat(mul_sat(-14_400, v_0), add_sat(mul_sat(15_800, t_blink), 170_000)));
    let shift = eps_floor(add_sat(mul_sat(-55, fwd_back_flow), 777_000));
    (shape, scale, shift)
}

/// Computes the inter-green last-half speed parameters from the shifted
/// `v_1`.
pub fn ig_v2_params(v_1: i64, far_side: bool) -> (r: (i64, i64, i64))
    requires
        in_range(v_1 as int),
    ensures
        r.0 as int == ig_v2_shape_spec(v_1 as int),
        r.1 as int == ig_v2_scale_spec(v_1 as int),
        r.2 as int == ig_v2_shift_spec(v_1 as int, dummy_fp(far_side)),
{
    let far = if far_side {
        1_000_000i64
    } else {
        0i64
    };
    let shape = eps_floor(add_sat(mul_sat(580_000, v_1), 6_670_000));
    let scale = eps_floor(add_sat(mul_sat(86_200, v_1), -3_330));
    let shift = eps_floor(add_sat(mul_sat(218_000, v_1), add_sat(mul_sat(-59_700, far), 499_000)));
    (shape, scale, shift)
}


/// The Bernoulli threshold rule: a uniform draw below the probability means
/// the flag fires.
pub fn bernoulli(u: i64, prob: i64) -> (r: bool)
    ensures
        r == (u < prob),
{
    u < prob
}

} // verus!
