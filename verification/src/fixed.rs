//! Fixed-point scalar arithmetic.
//!
//! Every scalar in this crate is an `i64` counting millionths of a unit:
//! the value `1_500_000` stands for one and a half world units. Products and
//! quotients are truncated toward zero, mirroring the rounding a hardware
//! divide would perform on the magnitudes.

use vstd::prelude::*;

verus! {

/// One world unit in fixed-point representation.
pub const FX_ONE: i64 = 1_000_000;

/// The circle constant pi, in millionths.
pub const FX_PI: i64 = 3_141_593;

/// Two pi, in millionths.
pub const FX_TWO_PI: i64 = 6_283_185;

/// Half pi, in millionths.
pub const FX_HALF_PI: i64 = 1_570_796;

/// Three halves of pi, in millionths.
pub const FX_THREE_HALF_PI: i64 = 4_712_389;

/// Division truncated toward zero, for a positive divisor: the rounding of a
/// hardware divide, as opposed to the Euclidean `/` of specifications.
pub open spec fn tdiv(p: int, d: int) -> int {
    if p >= 0 {
        p / d
    } else {
        -((-p) / d)
    }
}

/// The fixed-point product: multiply and scale back down, truncating
/// toward zero.
pub open spec fn fxm(a: int, b: int) -> int {
    tdiv(a * b, FX_ONE as int)
}

/// The fixed-point quotient: scale the dividend up and divide, truncating
/// toward zero. Dividing by zero yields zero, so that a degenerate camera
/// configuration produces a degenerate matrix rather than a failure.
pub open spec fn fxd(a: int, b: int) -> int {
    if b == 0 {
        0
    } else {
        let q = (vstd::math::abs(a) * (FX_ONE as int)) / (vstd::math::abs(b) as int);
        if (a < 0) == (b < 0) {
            q
        } else {
            -q
        }
    }
}

/// Truncating toward zero never grows the magnitude of the true quotient.
pub proof fn lemma_tdiv_bound(p: int, d: int, m: int)
    requires
        d > 0,
        0 <= m,
        -m <= p <= m,
    ensures
        -(m / d) <= tdiv(p, d) <= m / d,
{
    if p >= 0 {
        vstd::arithmetic::div_mod::lemma_div_is_ordered(p, m, d);
        vstd::arithmetic::div_mod::lemma_div_pos_is_pos(p, d);
    } else {
        vstd::arithmetic::div_mod::lemma_div_is_ordered(-p, m, d);
        vstd::arithmetic::div_mod::lemma_div_pos_is_pos(-p, d);
    }
}

/// A magnitude bound on the fixed-point product, from magnitude bounds on
/// its factors.
pub proof fn lemma_fxm_bound(a: int, b: int, la: int, lb: int)
    requires
        0 <= la,
        0 <= lb,
        -la <= a <= la,
        -lb <= b <= lb,
    ensures
        -((la * lb) / (FX_ONE as int)) <= fxm(a, b) <= (la * lb) / (FX_ONE as int),
{
    assert(-(la * lb) <= a * b <= la * lb) by (nonlinear_arith)
        requires
            0 <= la,
            0 <= lb,
            -la <= a <= la,
            -lb <= b <= lb,
    ;
    assert(0 <= la * lb) by (nonlinear_arith)
        requires
            0 <= la,
            0 <= lb,
    ;
    lemma_tdiv_bound(a * b, FX_ONE as int, la * lb);
}

/// Scaling up by a million and dividing by a nonzero integer never exceeds
/// the scaled-up magnitude.
pub proof fn lemma_fxd_bound(a: int, b: int)
    ensures
        -(vstd::math::abs(a) as int) * 1_000_000 <= fxd(a, b)
            <= (vstd::math::abs(a) as int) * 1_000_000,
{
    if b != 0 {
        let p = (vstd::math::abs(a) as int) * 1_000_000;
        vstd::arithmetic::div_mod::lemma_div_pos_is_pos(p, vstd::math::abs(b) as int);
        vstd::arithmetic::div_mod::lemma_div_is_ordered_by_denominator(
            p, 1, vstd::math::abs(b) as int);
        vstd::arithmetic::div_mod::lemma_div_basics_2(p);
    }
}

/// Fixed-point multiplication. The bounds on the factors are machine
/// limits: they keep the scaled-down product within an `i64`.
pub fn fx_mul(a: i64, b: i64) -> (r: i64)
    requires
        -2_000_000_000_000 <= a <= 2_000_000_000_000,
        -2_000_000_000_000 <= b <= 2_000_000_000_000,
    ensures
        r == fxm(a as int, b as int),
        (-1_400_000_000_000 <= a <= 1_400_000_000_000 && -1_400_000_000_000 <= b
            <= 1_400_000_000_000) ==> -1_960_000_000_000_000_000 <= r
            <= 1_960_000_000_000_000_000,
{
    proof {
        assert(-4_000_000_000_000_000_000_000_000 <= (a as int) * (b as int)
            <= 4_000_000_000_000_000_000_000_000) by (nonlinear_arith)
            requires
                -2_000_000_000_000 <= a <= 2_000_000_000_000,
                -2_000_000_000_000 <= b <= 2_000_000_000_000,
        ;
        lemma_tdiv_bound((a as int) * (b as int), FX_ONE as int,
            4_000_000_000_000_000_000_000_000);
        if -1_400_000_000_000 <= a <= 1_400_000_000_000 && -1_400_000_000_000 <= b
            <= 1_400_000_000_000 {
            lemma_fxm_bound(a as int, b as int, 1_400_000_000_000, 1_400_000_000_000);
        }
    }
    let p: i128 = (a as i128) * (b as i128);
    if p >= 0 {
        let q: u128 = (p as u128) / 1_000_000;
        q as i64
    } else {
        let q: u128 = ((-p) as u128) / 1_000_000;
        -(q as i64)
    }
}

/// Fixed-point division, truncating toward zero; division by zero yields
/// zero. The bounds are machine limits: the dividend must survive scaling
/// by a million and the true quotient must fit in an `i64`.
pub fn fx_div(a: i64, b: i64) -> (r: i64)
    requires
        -2_000_000_000_000_000_000 <= a <= 2_000_000_000_000_000_000,
        -9_223_372_036_854_775_807 <= fxd(a as int, b as int) <= 9_223_372_036_854_775_807,
    ensures
        r == fxd(a as int, b as int),
        -vstd::math::abs(a as int) * 1_000_000 <= r
            <= vstd::math::abs(a as int) * 1_000_000,
{
    if b == 0 {
        return 0;
    }
    let neg_a = a < 0;
    let neg_b = b < 0;
    let ma: u128 = if neg_a { (-(a as i128)) as u128 } else { a as u128 };
    let mb: u128 = if neg_b { (-(b as i128)) as u128 } else { b as u128 };
    proof {
        assert(ma == vstd::math::abs(a as int));
        assert(mb == vstd::math::abs(b as int));
        assert(mb >= 1);
        vstd::arithmetic::div_mod::lemma_div_pos_is_pos((ma * 1_000_000) as int, mb as int);
        vstd::arithmetic::div_mod::lemma_div_is_ordered_by_denominator(
            (ma * 1_000_000) as int, 1, mb as int);
    }
    let q: u128 = (ma * 1_000_000) / mb;
    let qi: i64 = q as i64;
    if neg_a == neg_b {
        qi
    } else {
        -qi
    }
}

/// Pins one Euclidean division down from an explicit quotient and
/// remainder: the way to evaluate a division of large concrete constants.
pub proof fn lemma_div_exact(x: int, d: int, q: int, r: int)
    requires
        d > 0,
        0 <= r < d,
        x == q * d + r,
    ensures
        x / d == q,
{
    vstd::arithmetic::div_mod::lemma_fundamental_div_mod_converse(x, d, q, r);
}

/// Decides whether the magnitude of the fixed-point quotient stays within
/// `lim`, without materializing the quotient in a fixed-width value.
pub fn fxd_le(a: i64, b: i64, lim: i64) -> (r: bool)
    requires
        -2_000_000_000_000_000_000 <= a <= 2_000_000_000_000_000_000,
        0 <= lim,
    ensures
        r == (-lim <= fxd(a as int, b as int) <= lim),
{
    if b == 0 {
        return true;
    }
    let neg_a = a < 0;
    let neg_b = b < 0;
    let ma: u128 = if neg_a { (-(a as i128)) as u128 } else { a as u128 };
    let mb: u128 = if neg_b { (-(b as i128)) as u128 } else { b as u128 };
    proof {
        assert(ma == vstd::math::abs(a as int));
        assert(mb == vstd::math::abs(b as int));
        vstd::arithmetic::div_mod::lemma_div_pos_is_pos((ma * 1_000_000) as int, mb as int);
    }
    let q: u128 = (ma * 1_000_000) / mb;
    q <= lim as u128
}

/// The angle wrapped into `[0, two pi)`.
pub open spec fn reduce_spec(x: int) -> int {
    x % (FX_TWO_PI as int)
}

/// First-quadrant sine polynomial over millionths:
/// `t - t^3/3! + t^5/5! - t^7/7! + t^9/9!`, every power scaled back down
/// after each multiplication, every division truncated.
pub open spec fn taylor_sin_spec(t: int) -> int {
    let one = FX_ONE as int;
    let t2 = (t * t) / one;
    let t3 = (t2 * t) / one;
    let t5 = (t3 * t2) / one;
    let t7 = (t5 * t2) / one;
    let t9 = (t7 * t2) / one;
    t - t3 / 6 + t5 / 120 - t7 / 5040 + t9 / 362880
}

/// First-quadrant cosine polynomial over millionths:
/// `1 - t^2/2! + t^4/4! - t^6/6! + t^8/8!`.
pub open spec fn taylor_cos_spec(t: int) -> int {
    let one = FX_ONE as int;
    let t2 = (t * t) / one;
    let t4 = (t2 * t2) / one;
    let t6 = (t4 * t2) / one;
    let t8 = (t6 * t2) / one;
    one - t2 / 2 + t4 / 24 - t6 / 720 + t8 / 40320
}

/// Saturation into `[-1, 1]`: sine and cosine never leave that range, so the
/// last few millionths of polynomial overshoot are cut off.
pub open spec fn clamp_unit_spec(v: int) -> int {
    if v > FX_ONE {
        FX_ONE as int
    } else if v < -(FX_ONE as int) {
        -(FX_ONE as int)
    } else {
        v
    }
}

/// Fixed-point sine of an angle in millionths of a radian.
pub open spec fn sin_spec(x: int) -> int {
    let r = reduce_spec(x);
    clamp_unit_spec(
        if r <= FX_HALF_PI {
            taylor_sin_spec(r)
        } else if r <= FX_PI {
            taylor_sin_spec(FX_PI - r)
        } else if r <= FX_THREE_HALF_PI {
            -taylor_sin_spec(r - FX_PI)
        } else {
            -taylor_sin_spec(FX_TWO_PI - r)
        },
    )
}

/// Fixed-point cosine of an angle in millionths of a radian.
pub open spec fn cos_spec(x: int) -> int {
    let r = reduce_spec(x);
    clamp_unit_spec(
        if r <= FX_HALF_PI {
            taylor_cos_spec(r)
        } else if r <= FX_PI {
            -taylor_cos_spec(FX_PI - r)
        } else if r <= FX_THREE_HALF_PI {
            -taylor_cos_spec(r - FX_PI)
        } else {
            taylor_cos_spec(FX_TWO_PI - r)
        },
    )
}

/// Fixed-point tangent: the quotient of sine by cosine, zero where the
/// cosine truncates to zero.
pub open spec fn tan_spec(x: int) -> int {
    fxd(sin_spec(x), cos_spec(x))
}

/// Wraps an angle into `[0, two pi)`.
fn rem_two_pi(x: i64) -> (r: i64)
    ensures
        r == reduce_spec(x as int),
        0 <= r < FX_TWO_PI,
{
    if x >= 0 {
        let m = (x as u64) % (FX_TWO_PI as u64);
        m as i64
    } else {
        let a: u64 = (-(x as i128)) as u64;
        let m = a % (FX_TWO_PI as u64);
        proof {
            let d = FX_TWO_PI as int;
            let qa = (a as int) / d;
            vstd::arithmetic::div_mod::lemma_fundamental_div_mod(a as int, d);
            if m == 0 {
                vstd::arithmetic::div_mod::lemma_fundamental_div_mod_converse(
                    x as int, d, -qa, 0);
            } else {
                vstd::arithmetic::div_mod::lemma_fundamental_div_mod_converse(
                    x as int, d, -qa - 1, d - m);
            }
        }
        if m == 0 {
            0
        } else {
            FX_TWO_PI - (m as i64)
        }
    }
}

/// First-quadrant sine polynomial; the bounds on the intermediate powers
/// keep every step inside a `u64`.
fn taylor_sin(t: u64) -> (r: i64)
    requires
        t <= 1_570_797,
    ensures
        r == taylor_sin_spec(t as int),
        -2_000_000 <= r <= 2_000_000,
{
    proof {
        assert(t * t <= 1_570_797 * 1_570_797) by (nonlinear_arith)
            requires t <= 1_570_797,
        ;
        vstd::arithmetic::div_mod::lemma_div_is_ordered(
            (t * t) as int, 2_467_403_215_609, 1_000_000);
    }
    let t2 = (t * t) / 1_000_000;
    proof {
        assert(t2 * t <= 2_467_403 * 1_570_797) by (nonlinear_arith)
            requires t <= 1_570_797, t2 <= 2_467_403,
        ;
        vstd::arithmetic::div_mod::lemma_div_is_ordered(
            (t2 * t) as int, 2_467_403int * 1_570_797, 1_000_000);
    }
    let t3 = (t2 * t) / 1_000_000;
    proof {
        assert(t3 * t2 <= 3_875_789 * 2_467_403) by (nonlinear_arith)
            requires t3 <= 3_875_789, t2 <= 2_467_403,
        ;
        vstd::arithmetic::div_mod::lemma_div_is_ordered(
            (t3 * t2) as int, 3_875_789int * 2_467_403, 1_000_000);
    }
    let t5 = (t3 * t2) / 1_000_000;
    proof {
        assert(t5 * t2 <= 9_563_133 * 2_467_403) by (nonlinear_arith)
            requires t5 <= 9_563_133, t2 <= 2_467_403,
        ;
        vstd::arithmetic::div_mod::lemma_div_is_ordered(
            (t5 * t2) as int, 9_563_133int * 2_467_403, 1_000_000);
    }
    let t7 = (t5 * t2) / 1_000_000;
    proof {
        assert(t7 * t2 <= 23_596_103 * 2_467_403) by (nonlinear_arith)
            requires t7 <= 23_596_103, t2 <= 2_467_403,
        ;
        vstd::arithmetic::div_mod::lemma_div_is_ordered(
            (t7 * t2) as int, 23_596_103int * 2_467_403, 1_000_000);
    }
    let t9 = (t7 * t2) / 1_000_000;
    (t as i64) - ((t3 / 6) as i64) + ((t5 / 120) as i64) - ((t7 / 5040) as i64)
        + ((t9 / 362880) as i64)
}

/// First-quadrant cosine polynomial; the bounds on the intermediate powers
/// keep every step inside a `u64`.
fn taylor_cos(t: u64) -> (r: i64)
    requires
        t <= 1_570_797,
    ensures
        r == taylor_cos_spec(t as int),
        -2_000_000 <= r <= 2_000_000,
{
    proof {
        assert(t * t <= 1_570_797 * 1_570_797) by (nonlinear_arith)
            requires t <= 1_570_797,
        ;
        vstd::arithmetic::div_mod::lemma_div_is_ordered(
            (t * t) as int, 2_467_403_215_609, 1_000_000);
    }
    let t2 = (t * t) / 1_000_000;
    proof {
        assert(t2 * t2 <= 2_467_403 * 2_467_403) by (nonlinear_arith)
            requires t2 <= 2_467_403,
        ;
        vstd::arithmetic::div_mod::lemma_div_is_ordered(
            (t2 * t2) as int, 2_467_403int * 2_467_403, 1_000_000);
    }
    let t4 = (t2 * t2) / 1_000_000;
    proof {
        assert(t4 * t2 <= 6_088_077 * 2_467_403) by (nonlinear_arith)
            requires t4 <= 6_088_077, t2 <= 2_467_403,
        ;
        vstd::arithmetic::div_mod::lemma_div_is_ordered(
            (t4 * t2) as int, 6_088_077int * 2_467_403, 1_000_000);
    }
    let t6 = (t4 * t2) / 1_000_000;
    proof {
        assert(t6 * t2 <= 15_021_739 * 2_467_403) by (nonlinear_arith)
            requires t6 <= 15_021_739, t2 <= 2_467_403,
        ;
        vstd::arithmetic::div_mod::lemma_div_is_ordered(
            (t6 * t2) as int, 15_021_739int * 2_467_403, 1_000_000);
    }
    let t8 = (t6 * t2) / 1_000_000;
    1_000_000i64 - ((t2 / 2) as i64) + ((t4 / 24) as i64) - ((t6 / 720) as i64)
        + ((t8 / 40320) as i64)
}

/// Fixed-point sine of an angle in millionths of a radian. Total: the angle
/// is wrapped into one turn first; the result is saturated into `[-1, 1]`.
pub fn sin_fix(x: i64) -> (r: i64)
    ensures
        r == sin_spec(x as int),
        -FX_ONE <= r <= FX_ONE,
{
    let red = rem_two_pi(x);
    let v: i64 = if red <= FX_HALF_PI {
        taylor_sin(red as u64)
    } else if red <= FX_PI {
        taylor_sin((FX_PI - red) as u64)
    } else if red <= FX_THREE_HALF_PI {
        -taylor_sin((red - FX_PI) as u64)
    } else {
        -taylor_sin((FX_TWO_PI - red) as u64)
    };
    if v > FX_ONE {
        FX_ONE
    } else if v < -FX_ONE {
        -FX_ONE
    } else {
        v
    }
}

/// Fixed-point cosine of an angle in millionths of a radian. Total, like
/// the sine.
pub fn cos_fix(x: i64) -> (r: i64)
    ensures
        r == cos_spec(x as int),
        -FX_ONE <= r <= FX_ONE,
{
    let red = rem_two_pi(x);
    let v: i64 = if red <= FX_HALF_PI {
        taylor_cos(red as u64)
    } else if red <= FX_PI {
        -taylor_cos((FX_PI - red) as u64)
    } else if red <= FX_THREE_HALF_PI {
        -taylor_cos((red - FX_PI) as u64)
    } else {
        taylor_cos((FX_TWO_PI - red) as u64)
    };
    if v > FX_ONE {
        FX_ONE
    } else if v < -FX_ONE {
        -FX_ONE
    } else {
        v
    }
}

/// Fixed-point tangent: sine over cosine, zero where the cosine truncates
/// to zero.
pub fn tan_fix(x: i64) -> (r: i64)
    ensures
        r == tan_spec(x as int),
        -1_000_000_000_000 <= r <= 1_000_000_000_000,
{
    let s = sin_fix(x);
    let c = cos_fix(x);
    proof {
        if c != 0 {
            vstd::arithmetic::div_mod::lemma_div_is_ordered_by_denominator(
                vstd::math::abs(s as int) as int * 1_000_000, 1, vstd::math::abs(c as int) as int);
        }
    }
    fx_div(s, c)
}


/// At the fixed-point eighth of a turn — the radian half-angle of a
/// ninety-degree field of view — sine and cosine agree and the tangent is
/// exactly one.
#[verifier::rlimit(50)]
pub proof fn lemma_trig_at_quarter_pi()
    ensures
        sin_spec(785_398) == 707_107,
        cos_spec(785_398) == 707_107,
        tan_spec(785_398) == 1_000_000,
{
    vstd::arithmetic::div_mod::lemma_fundamental_div_mod_converse(
        785_398, FX_TWO_PI as int, 0, 785_398);
    assert(reduce_spec(785_398) == 785_398);
    let t: int = 785_398;
    let one: int = 1_000_000;
    lemma_div_exact(616850018404, 1000000, 616850, 18404);
    let t2 = (t * t) / one;
    assert(t2 == 616_850);
    lemma_div_exact(484472756300, 1000000, 484472, 756300);
    let t3 = (t2 * t) / one;
    assert(t3 == 484_472);
    lemma_div_exact(298846553200, 1000000, 298846, 553200);
    let t5 = (t3 * t2) / one;
    assert(t5 == 298_846);
    lemma_div_exact(184343155100, 1000000, 184343, 155100);
    let t7 = (t5 * t2) / one;
    assert(t7 == 184_343);
    lemma_div_exact(113711979550, 1000000, 113711, 979550);
    let t9 = (t7 * t2) / one;
    assert(t9 == 113_711);
    lemma_div_exact(484472, 6, 80745, 2);
    lemma_div_exact(298846, 120, 2490, 46);
    lemma_div_exact(184343, 5040, 36, 2903);
    lemma_div_exact(113711, 362880, 0, 113711);
    assert(t - t3 / 6 + t5 / 120 - t7 / 5040 + t9 / 362880 == 707_107);
    assert(taylor_sin_spec(785_398) == 707_107);
    lemma_div_exact(380503922500, 1000000, 380503, 922500);
    let t4 = (t2 * t2) / one;
    assert(t4 == 380_503);
    lemma_div_exact(234713275550, 1000000, 234713, 275550);
    let t6 = (t4 * t2) / one;
    assert(t6 == 234_713);
    lemma_div_exact(144782714050, 1000000, 144782, 714050);
    let t8 = (t6 * t2) / one;
    assert(t8 == 144_782);
    lemma_div_exact(616850, 2, 308425, 0);
    lemma_div_exact(380503, 24, 15854, 7);
    lemma_div_exact(234713, 720, 325, 713);
    lemma_div_exact(144782, 40320, 3, 23822);
    assert(one - t2 / 2 + t4 / 24 - t6 / 720 + t8 / 40320 == 707_107);
    assert(taylor_cos_spec(785_398) == 707_107);
    lemma_div_exact(707107000000, 707107, 1000000, 0);
}

/// One is the unit of the fixed-point product.
pub proof fn lemma_fxm_one(a: int)
    ensures
        fxm(a, FX_ONE as int) == a,
{
    if a >= 0 {
        vstd::arithmetic::div_mod::lemma_div_multiples_vanish(a, FX_ONE as int);
    } else {
        vstd::arithmetic::div_mod::lemma_div_multiples_vanish(-a, FX_ONE as int);
    }
}

/// The sine and cosine of the zero angle are exact: zero and one.
pub proof fn lemma_sin_cos_at_zero()
    ensures
        sin_spec(0) == 0,
        cos_spec(0) == FX_ONE as int,
{
    vstd::arithmetic::div_mod::lemma_fundamental_div_mod_converse(
        0, FX_TWO_PI as int, 0, 0);
    vstd::arithmetic::div_mod::lemma_div_basics(1_000_000);
    vstd::arithmetic::div_mod::lemma_div_basics(6);
    vstd::arithmetic::div_mod::lemma_div_basics(120);
    vstd::arithmetic::div_mod::lemma_div_basics(5040);
    vstd::arithmetic::div_mod::lemma_div_basics(362880);
    vstd::arithmetic::div_mod::lemma_div_basics(2);
    vstd::arithmetic::div_mod::lemma_div_basics(24);
    vstd::arithmetic::div_mod::lemma_div_basics(720);
    vstd::arithmetic::div_mod::lemma_div_basics(40320);
}

} // verus!
