//! Fixed-point arithmetic for value estimates, rewards and rates.
//!
//! A real-valued quantity is carried as an `i64` holding its value times
//! [`SCALE`]; a rate or ratio in `[0, 1]` is an `i64` in `[0, SCALE]`.
//! Products are divided by `SCALE` with truncation towards zero, and results
//! that would leave the `i64` range saturate at its bounds.

use vstd::prelude::*;

verus! {

/// One unit: the fixed-point representation of the real number `1`.
pub const SCALE: i64 = 1_000_000;

/// Division by `SCALE`, truncating towards zero (`/` on `int` is Euclidean,
/// so the negative case is phrased through the magnitude).
pub open spec fn div_scale(a: int) -> int {
    if a >= 0 {
        a / (SCALE as int)
    } else {
        -((-a) / (SCALE as int))
    }
}

/// Clamping into the `i64` range.
pub open spec fn sat64(a: int) -> int {
    if a > i64::MAX {
        i64::MAX as int
    } else if a < i64::MIN {
        i64::MIN as int
    } else {
        a
    }
}

/// The Bellman update `q + alpha * (reward + gamma * maxq - q)`, in
/// fixed point: each product of a rate with a value is divided by `SCALE`
/// with truncation, and the final sum saturates into the `i64` range.
pub open spec fn bellman(oldq: int, reward: int, maxq: int, alpha: int, gamma: int) -> int {
    let future = div_scale(gamma * maxq);
    let delta = reward + future - oldq;
    sat64(oldq + div_scale(alpha * delta))
}

/// `div_scale` never grows a magnitude: the quotient stays between 0 and `a`.
proof fn lemma_div_scale_bound(a: int)
    ensures
        a >= 0 ==> 0 <= div_scale(a) <= a,
        a < 0 ==> a <= div_scale(a) <= 0,
{
    if a >= 0 {
        vstd::arithmetic::div_mod::lemma_div_pos_is_pos(a, SCALE as int);
        vstd::arithmetic::div_mod::lemma_div_nonincreasing(a, SCALE as int);
    } else {
        vstd::arithmetic::div_mod::lemma_div_pos_is_pos(-a, SCALE as int);
        vstd::arithmetic::div_mod::lemma_div_nonincreasing(-a, SCALE as int);
    }
}

/// Divides by `SCALE` with truncation towards zero, entirely in machine
/// arithmetic (the magnitude goes through `u128`, where `/` truncates).
pub(crate) fn div_scale_i128(a: i128) -> (r: i128)
    requires
        a > i128::MIN,
    ensures
        r == div_scale(a as int),
        a >= 0 ==> 0 <= r <= a,
        a < 0 ==> a <= r <= 0,
{
    proof {
        lemma_div_scale_bound(a as int);
    }
    if a >= 0 {
        let q: u128 = (a as u128) / (SCALE as u128);
        q as i128
    } else {
        let m: u128 = (-a) as u128;
        let q: u128 = m / (SCALE as u128);
        -(q as i128)
    }
}

/// Multiplies a rate in `[0, SCALE]` onto a value and scales back down;
/// since the rate is at most one, the result never grows past the value.
pub(crate) fn rate_times(rate: i64, value: i128) -> (r: i128)
    requires
        0 <= rate <= SCALE,
        -0x10_0000_0000_0000_0000_0000_0000 <= value <= 0x10_0000_0000_0000_0000_0000_0000,
    ensures
        r == div_scale((rate as int) * (value as int)),
        value >= 0 ==> 0 <= r <= value,
        value < 0 ==> value <= r <= 0,
{
    proof {
        let rt = rate as int;
        let vl = value as int;
        let sc = SCALE as int;
        if vl >= 0 {
            vstd::arithmetic::mul::lemma_mul_nonnegative(rt, vl);
            vstd::arithmetic::mul::lemma_mul_inequality(rt, sc, vl);
            vstd::arithmetic::div_mod::lemma_div_is_ordered(rt * vl, sc * vl, sc);
            vstd::arithmetic::div_mod::lemma_div_multiples_vanish(vl, sc);
            vstd::arithmetic::div_mod::lemma_div_pos_is_pos(rt * vl, sc);
        } else {
            vstd::arithmetic::mul::lemma_mul_nonnegative(rt, -vl);
            vstd::arithmetic::mul::lemma_mul_inequality(rt, sc, -vl);
            vstd::arithmetic::div_mod::lemma_div_is_ordered(rt * (-vl), sc * (-vl), sc);
            vstd::arithmetic::div_mod::lemma_div_multiples_vanish(-vl, sc);
            vstd::arithmetic::div_mod::lemma_div_pos_is_pos(rt * (-vl), sc);
            assert(rt * (-vl) == -(rt * vl)) by (nonlinear_arith);
        }
    }
    div_scale_i128((rate as i128) * value)
}

/// Clamps an `i128` into the `i64` range.
pub(crate) fn sat_to_i64(a: i128) -> (r: i64)
    ensures
        r == sat64(a as int),
{
    if a > i64::MAX as i128 {
        i64::MAX
    } else if a < i64::MIN as i128 {
        i64::MIN
    } else {
        a as i64
    }
}

/// One Bellman update, exactly as [`bellman`] states it.
///
/// `alpha` is the learning rate and `gamma` the discount ratio, both rates
/// in `[0, SCALE]`.
pub fn bellman_update(oldq: i64, reward: i64, maxq: i64, alpha: i64, gamma: i64) -> (r: i64)
    requires
        0 <= alpha <= SCALE,
        0 <= gamma <= SCALE,
    ensures
        r == bellman(oldq as int, reward as int, maxq as int, alpha as int, gamma as int),
{
    let future: i128 = rate_times(gamma, maxq as i128);
    let delta: i128 = (reward as i128) + future - (oldq as i128);
    let scaled: i128 = rate_times(alpha, delta);
    sat_to_i64((oldq as i128) + scaled)
}

} // verus!
