//! Deterministic market pricing.
//!
//! The current price of a resource oscillates around its base price:
//! `price = base * (1 + (volatility/100) * sin(elapsed/3600))`, where
//! `elapsed` is the number of seconds since the price record was written.
//! A ledger must be reproducible bit for bit, so the sine is not computed
//! in floating point: the wave below is a fixed-point rational
//! approximation (Bhaskara's) with amplitude [`WAVE_SCALE`], exact zero at
//! the start of each half period, and exact peaks at the quarter periods.
//! The price is therefore a pure function of the base price, the
//! volatility and the elapsed time.

use vstd::arithmetic::div_mod::{
    lemma_div_by_multiple, lemma_div_denominator, lemma_div_is_ordered,
    lemma_div_multiples_vanish, lemma_div_pos_is_pos, lemma_mod_bound,
};
use vstd::prelude::*;

verus! {

/// Seconds in a half oscillation period: the nearest integer to pi * 3600.
pub const HALF_PERIOD: u64 = 11310;

/// Seconds in a full oscillation period (about 6.28 hours).
pub const FULL_PERIOD: u64 = 22620;

/// Fixed-point scale of the wave: it ranges over `[-WAVE_SCALE, WAVE_SCALE]`.
pub const WAVE_SCALE: u64 = 1000;

/// Fixed-point scale of the price factor: `WAVE_SCALE` times 100, since the
/// volatility is a percentage.
pub const FACTOR_SCALE: u64 = 100_000;

/// Largest admissible base price: the price of a resource never exceeds
/// twice its base price, and twice this bound still fits in `u64`.
pub const MAX_BASE_PRICE: u64 = 0x7FFF_FFFF_FFFF_FFFF;

/// The rising half of the wave, scaled by [`WAVE_SCALE`]: Bhaskara's
/// rational approximation of `sin(pi * t / HALF_PERIOD)`.
pub open spec fn half_wave(t: int) -> int
    recommends
        0 <= t < HALF_PERIOD,
{
    (16 * WAVE_SCALE * t * (HALF_PERIOD - t)) / (
    5 * HALF_PERIOD * HALF_PERIOD - 4 * t * (HALF_PERIOD - t))
}

/// The full wave at `elapsed` seconds after the reference point: the first
/// half period rises and falls, the second is its mirror image.
pub open spec fn wave(elapsed: int) -> int
    recommends
        0 <= elapsed,
{
    let phase = elapsed % (FULL_PERIOD as int);
    if phase < HALF_PERIOD {
        half_wave(phase)
    } else {
        -half_wave(phase - HALF_PERIOD)
    }
}

/// The scaled multiplier applied to the base price.
pub open spec fn price_factor(volatility: int, elapsed: int) -> int {
    FACTOR_SCALE + volatility * wave(elapsed)
}

/// The current price of a resource with the given base price and
/// volatility percentage, `elapsed` seconds after its price record was
/// written.
pub open spec fn current_price(base: int, volatility: int, elapsed: int) -> int {
    base * price_factor(volatility, elapsed) / (FACTOR_SCALE as int)
}

/// The half wave stays within `[0, WAVE_SCALE]`.
pub proof fn lemma_half_wave_bounds(t: int)
    requires
        0 <= t < HALF_PERIOD,
    ensures
        0 <= half_wave(t) <= WAVE_SCALE,
{
    let h = HALF_PERIOD as int;
    let num = 16 * WAVE_SCALE * t * (h - t);
    let den = 5 * h * h - 4 * t * (h - t);
    assert(num >= 0 && den > 0 && num <= 1000 * den) by (nonlinear_arith)
        requires
            0 <= t < h,
            h == 11310,
            num == 16 * 1000 * t * (h - t),
            den == 5 * h * h - 4 * t * (h - t),
    ;
    lemma_div_pos_is_pos(num, den);
    lemma_div_is_ordered(num, 1000 * den, den);
    lemma_div_multiples_vanish(1000, den);
    assert(half_wave(t) == num / den);
}

/// The wave stays within `[-WAVE_SCALE, WAVE_SCALE]`.
pub proof fn lemma_wave_bounds(elapsed: int)
    requires
        0 <= elapsed,
    ensures
        -(WAVE_SCALE as int) <= wave(elapsed) <= WAVE_SCALE,
{
    lemma_mod_bound(elapsed, FULL_PERIOD as int);
    let phase = elapsed % (FULL_PERIOD as int);
    if phase < HALF_PERIOD {
        lemma_half_wave_bounds(phase);
    } else {
        lemma_half_wave_bounds(phase - HALF_PERIOD);
    }
}

/// At the reference point itself the wave is zero, so the price equals
/// the base price exactly.
pub proof fn lemma_price_at_reference_time(base: int, volatility: int)
    requires
        0 <= base,
    ensures
        current_price(base, volatility, 0) == base,
{
    let h = HALF_PERIOD as int;
    let den0 = 5 * h * h - 4 * 0 * (h - 0);
    assert(0int % (FULL_PERIOD as int) == 0) by (nonlinear_arith);
    assert(16 * WAVE_SCALE * 0 * (h - 0) == 0);
    lemma_div_multiples_vanish(0, den0);
    assert(den0 * 0 == 0);
    assert(half_wave(0) == 0);
    assert(wave(0) == 0);
    assert(price_factor(volatility, 0) == FACTOR_SCALE);
    lemma_div_multiples_vanish(base, FACTOR_SCALE as int);
    assert(base * (FACTOR_SCALE as int) == (FACTOR_SCALE as int) * base) by (nonlinear_arith);
}

/// The price oscillation is bounded by the volatility percentage: the
/// current price always lies within
/// `[base * (100 - volatility) / 100, base * (100 + volatility) / 100]`.
pub proof fn lemma_price_bounded(base: int, volatility: int, elapsed: int)
    requires
        0 <= base,
        0 <= volatility <= 100,
        0 <= elapsed,
    ensures
        base * (100 - volatility) / 100 <= current_price(base, volatility, elapsed),
        current_price(base, volatility, elapsed) <= base * (100 + volatility) / 100,
{
    let s = FACTOR_SCALE as int;
    let w = wave(elapsed);
    lemma_wave_bounds(elapsed);
    let lo = base * (100 - volatility);
    let hi = base * (100 + volatility);
    assert(0 <= lo && 0 <= hi && 1000 * lo <= base * (s + volatility * w) && base * (s
        + volatility * w) <= 1000 * hi) by (nonlinear_arith)
        requires
            0 <= base,
            0 <= volatility <= 100,
            -1000 <= w <= 1000,
            s == 100_000,
            lo == base * (100 - volatility),
            hi == base * (100 + volatility),
    ;
    lemma_div_is_ordered(1000 * lo, base * (s + volatility * w), s);
    lemma_div_is_ordered(base * (s + volatility * w), 1000 * hi, s);
    lemma_div_denominator(1000 * lo, 1000, 100);
    lemma_div_denominator(1000 * hi, 1000, 100);
    lemma_div_multiples_vanish(lo, 1000);
    lemma_div_multiples_vanish(hi, 1000);
    assert(current_price(base, volatility, elapsed) == base * (s + volatility * w) / s);
    assert((1000 * lo) / s == lo / 100);
    assert((1000 * hi) / s == hi / 100);
}

/// The rising half of the wave, computed exactly as [`half_wave`] states.
fn half_wave_at(t: u64) -> (r: u64)
    requires
        t < HALF_PERIOD,
    ensures
        r == half_wave(t as int),
        r <= WAVE_SCALE,
{
    proof {
        assert(t * (HALF_PERIOD - t) < 0x1_0000_0000u64) by (nonlinear_arith)
            requires
                t < HALF_PERIOD,
                HALF_PERIOD == 11310,
        ;
    }
    let a: u64 = t * (HALF_PERIOD - t);
    proof {
        assert(16 * WAVE_SCALE * a < 0x4000_0000_0000u64) by (nonlinear_arith)
            requires
                WAVE_SCALE == 1000,
                a < 0x1_0000_0000u64,
        ;
        assert(4 * a <= HALF_PERIOD * HALF_PERIOD) by (nonlinear_arith)
            requires
                a == t * (HALF_PERIOD - t),
                0 <= t < HALF_PERIOD,
                HALF_PERIOD == 11310,
        ;
    }
    let num: u64 = 16 * WAVE_SCALE * a;
    let den: u64 = 5 * HALF_PERIOD * HALF_PERIOD - 4 * a;
    proof {
        assert(num == 16 * WAVE_SCALE * t * ((HALF_PERIOD as int) - t) && den == 5 * (
        HALF_PERIOD as int) * (HALF_PERIOD as int) - 4 * t * ((HALF_PERIOD as int) - t))
            by (nonlinear_arith)
            requires
                t < HALF_PERIOD,
                a == t * ((HALF_PERIOD as int) - t),
                num == 16 * (WAVE_SCALE as int) * a,
                den == 5 * (HALF_PERIOD as int) * (HALF_PERIOD as int) - 4 * a,
        ;
        lemma_half_wave_bounds(t as int);
    }
    num / den
}

/// The wave at `elapsed` seconds after the reference point.
pub fn wave_at(elapsed: u64) -> (r: i64)
    ensures
        r == wave(elapsed as int),
        -(WAVE_SCALE as int) <= r <= WAVE_SCALE,
{
    let phase: u64 = elapsed % FULL_PERIOD;
    if phase < HALF_PERIOD {
        half_wave_at(phase) as i64
    } else {
        let v = half_wave_at(phase - HALF_PERIOD);
        -(v as i64)
    }
}

/// The current price of a resource, `elapsed` seconds after its price
/// record was written.
pub fn price_at(base: u64, volatility: u64, elapsed: u64) -> (r: u64)
    requires
        base <= MAX_BASE_PRICE,
        volatility <= 100,
    ensures
        r == current_price(base as int, volatility as int, elapsed as int),
{
    let w: i64 = wave_at(elapsed);
    proof {
        assert(-100_000 <= (volatility as int) * w <= 100_000) by (nonlinear_arith)
            requires
                0 <= volatility <= 100,
                -1000 <= w <= 1000,
        ;
    }
    let vw: i64 = (volatility as i64) * w;
    let factor: i64 = FACTOR_SCALE as i64 + vw;
    proof {
        assert((base as int) * (factor as int) <= 0x7FFF_FFFF_FFFF_FFFFint * 200_000)
            by (nonlinear_arith)
            requires
                0 <= base <= 0x7FFF_FFFF_FFFF_FFFFu64,
                0 <= factor <= 200_000,
        ;
    }
    let num: u128 = (base as u128) * (factor as u128);
    let q: u128 = num / (FACTOR_SCALE as u128);
    proof {
        assert(num <= (2 * base) * (FACTOR_SCALE as int)) by (nonlinear_arith)
            requires
                num == (base as int) * (factor as int),
                0 <= base,
                0 <= factor <= 200_000,
                FACTOR_SCALE == 100_000,
        ;
        lemma_div_is_ordered(num as int, (2 * base) * (FACTOR_SCALE as int), FACTOR_SCALE as int);
        lemma_div_by_multiple(2 * base, FACTOR_SCALE as int);
        lemma_div_pos_is_pos(num as int, FACTOR_SCALE as int);
        assert(current_price(base as int, volatility as int, elapsed as int) == (base as int) * (
        factor as int) / (FACTOR_SCALE as int));
    }
    q as u64
}

} // verus!
