//! Conversions between ticks, prices and square-root prices, and the
//! predicates on tick ranges.
use crate::decimal::{
    abs_int, dec, dec_div, dec_exp, dec_ln, dec_lt, dec_mul, dec_round, dec_sub, difference_of,
    exact_product, exp_of, lemma_pow10_pos, ln_of, one, pow10, product_of, quotient_of,
    round_half_even, zero, Dec, MAX_MANTISSA,
};
use vstd::prelude::*;

verus! {

/// Mantissa of ln(1.0001) at scale 20.
pub const LN_BASE_MANTISSA: i128 = 9999500033330834;

/// `ln(1.0001)`, the step between neighbouring ticks on a log scale.
pub open spec fn ln_base() -> Dec {
    dec(LN_BASE_MANTISSA as int, 20)
}

/// The tick base `1.0001`.
pub open spec fn tick_base() -> Dec {
    dec(10001, 4)
}

/// One half.
pub open spec fn half() -> Dec {
    dec(5, 1)
}

/// The exponent `tick / 2 * ln(1.0001)` of the square-root price.
pub open spec fn exponent_of(tick: i32) -> Dec {
    exact_product(exact_product(dec(tick as int, 0), half()), ln_base())
}

/// Beyond this magnitude of the exponent the square-root price is clamped.
pub open spec fn exponent_limit() -> Dec {
    dec(100, 0)
}

/// The exponent of `tick` is beyond the limit.
pub open spec fn exceeds_exponent_limit(tick: i32) -> bool {
    exponent_limit().units() < abs_int(exponent_of(tick).units())
}

/// The clamped square-root price: 10^6 above, 10^-6 at or below tick zero.
pub open spec fn sqrt_price_cap(tick: i32) -> Dec {
    if tick > 0 {
        dec(1000000, 0)
    } else {
        dec(1, 6)
    }
}

/// `1.0001^(tick/2)`, clamped where the exponent is beyond the limit or its
/// exponential leaves the decimal range.
pub open spec fn sqrt_price_of(tick: i32) -> Dec {
    if exceeds_exponent_limit(tick) {
        sqrt_price_cap(tick)
    } else {
        match exp_of(exponent_of(tick)) {
            Some(e) => e,
            None => sqrt_price_cap(tick),
        }
    }
}

/// `1.0001^tick`, the square of the square-root price.
pub open spec fn price_of(tick: i32) -> Dec {
    product_of(sqrt_price_of(tick), sqrt_price_of(tick))
}

/// The integer nearest `q` (ties to even), or zero where it is not an `i32`.
pub open spec fn rounded_tick(q: Dec) -> i32 {
    let n = round_half_even(q.units(), pow10(28));
    if i32::MIN <= n <= i32::MAX {
        n as i32
    } else {
        0
    }
}

/// `round(ln(price) / ln(1.0001))`; zero for a price that is not positive or
/// where a step has no result.
pub open spec fn tick_of(price: Dec) -> i32 {
    if price.units() <= 0 {
        0
    } else {
        match (ln_of(price), ln_of(tick_base())) {
            (Some(a), Some(b)) => match quotient_of(a, b) {
                Some(q) => rounded_tick(q),
                None => 0,
            },
            _ => 0,
        }
    }
}

/// `(price(upper) - price(lower)) / price(lower) * 100`; zero where the lower
/// price is zero or the quotient has no result.
pub open spec fn range_width_of(tick_lower: i32, tick_upper: i32) -> Dec {
    let lo = price_of(tick_lower);
    let hi = price_of(tick_upper);
    if lo.mantissa == 0 {
        zero()
    } else {
        match quotient_of(difference_of(hi, lo), lo) {
            Some(q) => product_of(q, dec(100, 0)),
            None => zero(),
        }
    }
}

/// The tick lies in the half-open range `[tick_lower, tick_upper)`.
pub open spec fn in_range(current_tick: i32, tick_lower: i32, tick_upper: i32) -> bool {
    tick_lower <= current_tick < tick_upper
}

/// Distance to the nearer edge of the range; zero outside it.
pub open spec fn distance_to_edge(current_tick: i32, tick_lower: i32, tick_upper: i32) -> int {
    if !in_range(current_tick, tick_lower, tick_upper) {
        0
    } else if current_tick - tick_lower <= tick_upper - current_tick {
        current_tick - tick_lower
    } else {
        tick_upper - current_tick
    }
}

/// Whether `current_tick` lies in `[tick_lower, tick_upper)`.
pub fn is_in_range(current_tick: i32, tick_lower: i32, tick_upper: i32) -> (r: bool)
    ensures
        r == in_range(current_tick, tick_lower, tick_upper),
        r == (tick_lower <= current_tick && current_tick < tick_upper),
{
    current_tick >= tick_lower && current_tick < tick_upper
}

/// The distance from `current_tick` to the nearer edge of the range, or zero
/// when it lies outside the range.
pub fn distance_to_range_edge(current_tick: i32, tick_lower: i32, tick_upper: i32) -> (r: i32)
    ensures
        r == distance_to_edge(current_tick, tick_lower, tick_upper),
        r >= 0,
{
    if current_tick < tick_lower {
        return 0;
    }
    if current_tick >= tick_upper {
        return 0;
    }
    let to_lower: i64 = current_tick as i64 - tick_lower as i64;
    let to_upper: i64 = tick_upper as i64 - current_tick as i64;
    if to_lower <= to_upper {
        to_lower as i32
    } else {
        to_upper as i32
    }
}

/// The square-root price `1.0001^(tick/2)`, computed as
/// `exp(tick * 0.5 * ln(1.0001))`. Where that exponent exceeds 100 in
/// magnitude, or its exponential leaves the decimal range, the result is
/// clamped to 10^6 for a positive tick and to 10^-6 otherwise.
pub fn tick_to_sqrt_price(tick: i32) -> (r: Dec)
    ensures
        r.wf(),
        r == sqrt_price_of(tick),
        tick == 0 ==> r == one(),
{
    let log_step = Dec::new(LN_BASE_MANTISSA, 20);
    let one_half = Dec::new(5, 1);
    let t = Dec::from_i32(tick);
    proof {
        assert(abs_int(tick as int * 5) <= 5 * 2147483648) by (nonlinear_arith)
            requires
                -2147483648 <= tick <= 2147483647,
        ;
    }
    let scaled = dec_mul(t, one_half);
    assert(scaled == exact_product(dec(tick as int, 0), half()));
    proof {
        if scaled.mantissa != 0 {
            assert(abs_int(scaled.mantissa * LN_BASE_MANTISSA) <= MAX_MANTISSA) by (nonlinear_arith)
                requires
                    abs_int(scaled.mantissa as int) <= 5 * 2147483648,
            ;
        }
    }
    let exponent = dec_mul(scaled, log_step);
    assert(exponent == exponent_of(tick));
    let limit = Dec::new(100, 0);
    proof {
        crate::decimal::lemma_units_sign(exponent);
        crate::decimal::lemma_units_sign(limit);
    }
    if dec_lt(limit, exponent.abs()) {
        return clamped_sqrt_price(tick);
    }
    match dec_exp(exponent) {
        Some(e) => e,
        None => clamped_sqrt_price(tick),
    }
}

fn clamped_sqrt_price(tick: i32) -> (r: Dec)
    ensures
        r == sqrt_price_cap(tick),
        r.wf(),
{
    if tick > 0 {
        Dec::new(1000000, 0)
    } else {
        Dec::new(1, 6)
    }
}

/// The price `1.0001^tick`, the square of the square-root price.
pub fn tick_to_price(tick: i32) -> (r: Dec)
    ensures
        r.wf(),
        r == price_of(tick),
        tick == 0 ==> r == one(),
{
    let s = tick_to_sqrt_price(tick);
    dec_mul(s, s)
}

/// The tick nearest a price: `round(ln(price) / ln(1.0001))`. Zero for a
/// price that is not positive.
pub fn price_to_tick(price: Dec) -> (r: i32)
    requires
        price.wf(),
    ensures
        r == tick_of(price),
        price.units() <= 0 ==> r == 0,
        price.units() == pow10(28) ==> r == 0,
{
    proof {
        crate::decimal::lemma_units_sign(price);
    }
    if !price.is_positive() {
        return 0;
    }
    let log_price = match dec_ln(price) {
        Some(l) => l,
        None => return 0,
    };
    let log_base = match dec_ln(Dec::new(10001, 4)) {
        Some(l) => l,
        None => return 0,
    };
    let q = match dec_div(log_price, log_base) {
        Some(q) => q,
        None => return 0,
    };
    let n = dec_round(q);
    proof {
        crate::decimal::lemma_pow10_pos(28);
        crate::decimal::lemma_units_sign(q);
        if q.mantissa == 0 {
            vstd::arithmetic::div_mod::lemma_div_of0(pow10(28));
            assert(round_half_even(q.units(), pow10(28)) == 0);
        }
        crate::decimal::lemma_integral_trunc(n, round_half_even(q.units(), pow10(28)));
    }
    match n.to_i32() {
        Some(t) => t,
        None => 0,
    }
}

/// The percentage by which the price at `tick_upper` exceeds that at
/// `tick_lower`; zero where the lower price is zero.
pub fn range_width_percent(tick_lower: i32, tick_upper: i32) -> (r: Dec)
    ensures
        r == range_width_of(tick_lower, tick_upper),
{
    let price_lower = tick_to_price(tick_lower);
    let price_upper = tick_to_price(tick_upper);
    if price_lower.is_zero() {
        return Dec::zero();
    }
    match dec_div(dec_sub(price_upper, price_lower), price_lower) {
        Some(q) => dec_mul(q, Dec::new(100, 0)),
        None => Dec::zero(),
    }
}

} // verus!
