//! Fee income, impermanent loss and net profit of a position.
use crate::decimal::{
    dec, dec_add, dec_div, dec_lt, dec_mul, dec_sub, difference_of, exact_sum_fits, lemma_equal_values_subtract_exactly,
    lemma_units_sign,
    product_of, quotient_of, sum_of, zero, Dec,
};
use crate::liquidity::{
    calculate_position_value, get_token_amounts_from_liquidity, token_amounts, value_of,
};
use crate::models::{integer_dec, Int256, Position, PositionPnL, Swap};
use crate::ticks::{price_to_tick, tick_of};
use vstd::prelude::*;

verus! {

/// The assumed fee tier, 0.3%.
pub open spec fn fee_rate() -> Dec {
    dec(3, 3)
}

/// The assumed share of the pool held by a position, 1%.
pub open spec fn pool_share() -> Dec {
    dec(1, 2)
}

/// Price moves smaller than this count as no move.
pub open spec fn price_tolerance() -> Dec {
    dec(1, 6)
}

/// `|a|` as a decimal; zero where it exceeds the decimal range.
pub open spec fn magnitude_dec(a: Int256) -> Dec {
    match integer_dec(a.magnitude.value()) {
        Some(d) => d,
        None => zero(),
    }
}

/// `|amount0| + |amount1|` of one swap.
pub open spec fn swap_volume(s: Swap) -> Dec {
    sum_of(magnitude_dec(s.amount0), magnitude_dec(s.amount1))
}

/// The swap volumes added up from the first swap on.
pub open spec fn total_volume(swaps: Seq<Swap>) -> Dec
    decreases swaps.len(),
{
    if swaps.len() == 0 {
        zero()
    } else {
        sum_of(total_volume(swaps.drop_last()), swap_volume(swaps.last()))
    }
}

/// The estimated fees: total volume times the fee rate times the pool share.
pub open spec fn fees_of(swaps: Seq<Swap>) -> Dec {
    if swaps.len() == 0 {
        zero()
    } else {
        product_of(product_of(total_volume(swaps), fee_rate()), pool_share())
    }
}

/// `max(0, x)` in the way `Ord::max` picks: zero unless `x` is above zero.
pub open spec fn non_negative(x: Dec) -> Dec {
    if x.units() <= 0 {
        zero()
    } else {
        x
    }
}

/// The impermanent loss of liquidity over `[tick_lower, tick_upper)` when
/// the price moves from `initial_price` to `current_price`: the shortfall of
/// the position's value against holding its initial tokens, as a fraction of
/// the latter, both valued at the current price. Zero for non-positive
/// prices, a move below the tolerance, zero or out-of-range liquidity, a zero
/// held value, a quotient without a result, and a gain.
pub open spec fn impermanent_loss_of(
    liquidity: nat,
    tick_lower: i32,
    tick_upper: i32,
    initial_price: Dec,
    current_price: Dec,
) -> Dec {
    if initial_price.units() <= 0 || current_price.units() <= 0 {
        zero()
    } else if crate::decimal::abs_int(difference_of(current_price, initial_price).units())
        < price_tolerance().units() {
        zero()
    } else {
        match integer_dec(liquidity) {
            None => zero(),
            Some(l) => if l.mantissa == 0 {
                zero()
            } else {
                let held = token_amounts(l, tick_of(initial_price), tick_lower, tick_upper);
                let now = token_amounts(l, tick_of(current_price), tick_lower, tick_upper);
                let v_hodl = value_of(held.0, held.1, current_price);
                let v_current = value_of(now.0, now.1, current_price);
                if v_hodl.mantissa == 0 {
                    zero()
                } else {
                    match quotient_of(difference_of(v_hodl, v_current), v_hodl) {
                        Some(q) => non_negative(q),
                        None => zero(),
                    }
                }
            },
        }
    }
}

/// Fees, impermanent loss, gas and net profit `fees - il - gas` of a position
/// holding `liquidity` over `[tick_lower, tick_upper)`.
pub open spec fn position_pnl_of(
    liquidity: nat,
    tick_lower: i32,
    tick_upper: i32,
    swaps: Seq<Swap>,
    initial_price: Dec,
    current_price: Dec,
    gas_spent: Dec,
) -> PositionPnL {
    let fees = fees_of(swaps);
    let il = impermanent_loss_of(liquidity, tick_lower, tick_upper, initial_price, current_price);
    PositionPnL {
        fees_earned: fees,
        impermanent_loss: il,
        gas_spent,
        net_pnl: difference_of(difference_of(fees, il), gas_spent),
    }
}

fn magnitude_dec_exec(a: &Int256) -> (r: Dec)
    ensures
        r == magnitude_dec(*a),
        r.wf(),
        r.mantissa >= 0,
{
    match a.magnitude.to_dec() {
        Some(d) => d,
        None => Dec::zero(),
    }
}

/// The fees a position earned from `swaps`, estimated as
/// `sum(|amount0| + |amount1|) * 0.003 * 0.01`; zero for no swaps. An amount
/// beyond the decimal range counts as zero.
pub fn calculate_fees_earned(position: &Position, swaps: &[Swap]) -> (r: Dec)
    ensures
        r == fees_of(swaps@),
        r.wf(),
        r.units() >= 0,
        swaps@.len() == 0 ==> r == zero(),
{
    if swaps.len() == 0 {
        return Dec::zero();
    }
    let fee_rate = Dec::new(3, 3);
    let pool_share = Dec::new(1, 2);
    let mut total = Dec::zero();
    let mut i: usize = 0;
    while i < swaps.len()
        invariant
            i <= swaps@.len(),
            total == total_volume(swaps@.subrange(0, i as int)),
            total.wf(),
            total.mantissa >= 0,
        decreases swaps@.len() - i,
    {
        let s = &swaps[i];
        let volume = dec_add(magnitude_dec_exec(&s.amount0), magnitude_dec_exec(&s.amount1));
        proof {
            let next = swaps@.subrange(0, i + 1);
            assert(next.drop_last() =~= swaps@.subrange(0, i as int));
            assert(next.last() == swaps@[i as int]);
        }
        total = dec_add(total, volume);
        i = i + 1;
    }
    assert(swaps@.subrange(0, swaps@.len() as int) =~= swaps@);
    let fees = dec_mul(dec_mul(total, fee_rate), pool_share);
    proof {
        lemma_units_sign(fees);
    }
    fees
}

/// The impermanent loss of `position` for a move from `initial_price` to
/// `current_price`, as a non-negative fraction of the held value.
pub fn calculate_impermanent_loss(position: &Position, initial_price: Dec, current_price: Dec) -> (r: Dec)
    requires
        initial_price.wf(),
        current_price.wf(),
    ensures
        r == impermanent_loss_of(
            position.liquidity.value(),
            position.tick_lower,
            position.tick_upper,
            initial_price,
            current_price,
        ),
        r.wf(),
        r.units() >= 0,
        initial_price.units() <= 0 || current_price.units() <= 0 ==> r == zero(),
        position.liquidity.value() == 0 ==> r == zero(),
        initial_price.units() == current_price.units() ==> r == zero(),
{
    proof {
        lemma_units_sign(initial_price);
        lemma_units_sign(current_price);
        lemma_units_sign(zero());
    }
    if !initial_price.is_positive() || !current_price.is_positive() {
        return Dec::zero();
    }
    let tolerance = Dec::new(1, 6);
    let moved = dec_sub(current_price, initial_price);
    proof {
        lemma_units_sign(tolerance);
        if initial_price.units() == current_price.units() {
            lemma_equal_values_subtract_exactly(current_price, initial_price);
        }
    }
    if dec_lt(moved.abs(), tolerance) {
        return Dec::zero();
    }
    let liquidity = match position.liquidity.to_dec() {
        Some(l) => l,
        None => return Dec::zero(),
    };
    if liquidity.is_zero() {
        return Dec::zero();
    }
    let initial_tick = price_to_tick(initial_price);
    let current_tick = price_to_tick(current_price);
    let (x0, y0) = get_token_amounts_from_liquidity(
        liquidity,
        initial_tick,
        position.tick_lower,
        position.tick_upper,
    );
    let (x, y) = get_token_amounts_from_liquidity(
        liquidity,
        current_tick,
        position.tick_lower,
        position.tick_upper,
    );
    let v_hodl = calculate_position_value(x0, y0, current_price);
    let v_current = calculate_position_value(x, y, current_price);
    if v_hodl.is_zero() {
        return Dec::zero();
    }
    match dec_div(dec_sub(v_hodl, v_current), v_hodl) {
        Some(il) => {
            proof {
                lemma_units_sign(il);
            }
            if il.is_positive() {
                il
            } else {
                Dec::zero()
            }
        },
        None => Dec::zero(),
    }
}

/// Net profit: `fees - il - gas`.
pub fn calculate_net_pnl(fees: Dec, il: Dec, gas: Dec) -> (r: Dec)
    requires
        fees.wf(),
        il.wf(),
        gas.wf(),
    ensures
        r == difference_of(difference_of(fees, il), gas),
        r.wf(),
        exact_sum_fits(fees, il, -1) && exact_sum_fits(difference_of(fees, il), gas, -1)
            ==> r.units() == fees.units() - il.units() - gas.units(),
{
    dec_sub(dec_sub(fees, il), gas)
}

/// Fees, impermanent loss and net profit of `position` in one record.
pub fn calculate_position_pnl(
    position: &Position,
    swaps: &[Swap],
    initial_price: Dec,
    current_price: Dec,
    gas_spent: Dec,
) -> (r: PositionPnL)
    requires
        initial_price.wf(),
        current_price.wf(),
        gas_spent.wf(),
    ensures
        r == position_pnl_of(
            position.liquidity.value(),
            position.tick_lower,
            position.tick_upper,
            swaps@,
            initial_price,
            current_price,
            gas_spent,
        ),
        r.fees_earned.wf(),
        r.impermanent_loss.wf(),
        r.net_pnl.wf(),
{
    let fees_earned = calculate_fees_earned(position, swaps);
    let impermanent_loss = calculate_impermanent_loss(position, initial_price, current_price);
    let net_pnl = calculate_net_pnl(fees_earned, impermanent_loss, gas_spent);
    PositionPnL { fees_earned, impermanent_loss, gas_spent, net_pnl }
}

} // verus!
