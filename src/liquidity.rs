//! Token amounts held by a position, and their value.
use crate::decimal::{
    dec_add, dec_div, dec_mul, dec_sub, difference_of, product_of, quotient_of, sum_of, zero, Dec,
};
use crate::ticks::{sqrt_price_of, tick_to_sqrt_price};
use vstd::prelude::*;

verus! {

/// `a / b`, or zero where the quotient has no result.
pub open spec fn quotient_or_zero(a: Dec, b: Dec) -> Dec {
    match quotient_of(a, b) {
        Some(q) => q,
        None => zero(),
    }
}

/// The token amounts `(amount0, amount1)` of liquidity `l` over
/// `[tick_lower, tick_upper)` at `current_tick`:
/// all token0 below the range, all token1 at or above it, both inside it.
pub open spec fn token_amounts(l: Dec, current_tick: i32, tick_lower: i32, tick_upper: i32) -> (
    Dec,
    Dec,
) {
    let sp = sqrt_price_of(current_tick);
    let sa = sqrt_price_of(tick_lower);
    let sb = sqrt_price_of(tick_upper);
    if l.mantissa == 0 {
        (zero(), zero())
    } else if current_tick < tick_lower {
        (quotient_or_zero(product_of(l, difference_of(sb, sa)), product_of(sa, sb)), zero())
    } else if current_tick >= tick_upper {
        (zero(), product_of(l, difference_of(sb, sa)))
    } else {
        (
            quotient_or_zero(product_of(l, difference_of(sb, sp)), product_of(sp, sb)),
            product_of(l, difference_of(sp, sa)),
        )
    }
}

/// `amount0 * price + amount1`: the value in units of token1.
pub open spec fn value_of(amount0: Dec, amount1: Dec, price: Dec) -> Dec {
    sum_of(product_of(amount0, price), amount1)
}

fn quotient_or_zero_exec(a: Dec, b: Dec) -> (r: Dec)
    requires
        a.wf(),
        b.wf(),
    ensures
        r == quotient_or_zero(a, b),
        r.wf(),
{
    match dec_div(a, b) {
        Some(q) => q,
        None => Dec::zero(),
    }
}

/// The amounts of token0 and token1 that `liquidity` over
/// `[tick_lower, tick_upper)` holds at `current_tick`. Below the range it is
/// `L * (√Pb - √Pa) / (√Pa * √Pb)` of token0; at or above it
/// `L * (√Pb - √Pa)` of token1; inside it `L * (√Pb - √P) / (√P * √Pb)` of
/// token0 and `L * (√P - √Pa)` of token1. A quotient without a result
/// (a zero divisor) counts as zero.
pub fn get_token_amounts_from_liquidity(
    liquidity: Dec,
    current_tick: i32,
    tick_lower: i32,
    tick_upper: i32,
) -> (r: (Dec, Dec))
    requires
        liquidity.wf(),
    ensures
        r == token_amounts(liquidity, current_tick, tick_lower, tick_upper),
        r.0.wf(),
        r.1.wf(),
        liquidity.mantissa == 0 ==> r == (zero(), zero()),
        current_tick < tick_lower ==> r.1 == zero(),
        tick_lower < tick_upper <= current_tick ==> r.0 == zero(),
{
    if liquidity.is_zero() {
        return (Dec::zero(), Dec::zero());
    }
    let sqrt_price = tick_to_sqrt_price(current_tick);
    let sqrt_price_lower = tick_to_sqrt_price(tick_lower);
    let sqrt_price_upper = tick_to_sqrt_price(tick_upper);

    if current_tick < tick_lower {
        let amount0 = quotient_or_zero_exec(
            dec_mul(liquidity, dec_sub(sqrt_price_upper, sqrt_price_lower)),
            dec_mul(sqrt_price_lower, sqrt_price_upper),
        );
        return (amount0, Dec::zero());
    }
    if current_tick >= tick_upper {
        let amount1 = dec_mul(liquidity, dec_sub(sqrt_price_upper, sqrt_price_lower));
        return (Dec::zero(), amount1);
    }
    let amount0 = quotient_or_zero_exec(
        dec_mul(liquidity, dec_sub(sqrt_price_upper, sqrt_price)),
        dec_mul(sqrt_price, sqrt_price_upper),
    );
    let amount1 = dec_mul(liquidity, dec_sub(sqrt_price, sqrt_price_lower));
    (amount0, amount1)
}

/// The value of `amount0` of token0 and `amount1` of token1 in units of
/// token1: `amount0 * price + amount1`. At a zero price it is `amount1`.
pub fn calculate_position_value(amount0: Dec, amount1: Dec, price: Dec) -> (r: Dec)
    requires
        amount0.wf(),
        amount1.wf(),
        price.wf(),
    ensures
        r == value_of(amount0, amount1, price),
        r.wf(),
        price.mantissa == 0 ==> r == amount1,
{
    dec_add(dec_mul(amount0, price), amount1)
}

} // verus!
