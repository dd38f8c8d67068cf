//! Classification of a position's health from its range and profit.
use crate::decimal::{lemma_units_sign, Dec};
use crate::models::{HealthStatus, Position, PositionPnL};
use crate::ticks::{distance_to_edge, distance_to_range_edge, in_range, is_in_range};
use vstd::prelude::*;

verus! {

/// The tick lies within a tenth of the range's half-width of an edge:
/// `distance <= (tick_upper - tick_lower) / 2 / 10`.
pub open spec fn near_edge(current_tick: i32, tick_lower: i32, tick_upper: i32) -> bool {
    20 * distance_to_edge(current_tick, tick_lower, tick_upper) <= tick_upper - tick_lower
}

/// Critical out of range or at a net loss; Warning in range near an edge;
/// Healthy otherwise.
pub open spec fn health_of(tick_lower: i32, tick_upper: i32, current_tick: i32, net_pnl: Dec) -> HealthStatus {
    if !in_range(current_tick, tick_lower, tick_upper) || net_pnl.units() < 0 {
        HealthStatus::Critical
    } else if near_edge(current_tick, tick_lower, tick_upper) {
        HealthStatus::Warning
    } else {
        HealthStatus::Healthy
    }
}

/// The explanation that goes with `health_of`, naming what decided it.
pub open spec fn health_details_of(
    tick_lower: i32,
    tick_upper: i32,
    current_tick: i32,
    net_pnl: Dec,
) -> Seq<char> {
    if !in_range(current_tick, tick_lower, tick_upper) {
        "Critical: the current tick is outside the position's range"@
    } else if net_pnl.units() < 0 {
        "Critical: the position's net P&L is negative"@
    } else if near_edge(current_tick, tick_lower, tick_upper) {
        "Warning: the current tick is within 10% of the range's half-width of an edge"@
    } else {
        "Healthy: the position is in range, away from its edges, with non-negative net P&L"@
    }
}

fn is_near_edge(current_tick: i32, tick_lower: i32, tick_upper: i32) -> (r: bool)
    ensures
        r == near_edge(current_tick, tick_lower, tick_upper),
{
    let distance = distance_to_range_edge(current_tick, tick_lower, tick_upper);
    20 * (distance as i64) <= tick_upper as i64 - tick_lower as i64
}

/// The health of `position` at `current_tick` given its P&L.
pub fn get_position_health(position: &Position, current_tick: i32, pnl: &PositionPnL) -> (r: HealthStatus)
    ensures
        r == health_of(position.tick_lower, position.tick_upper, current_tick, pnl.net_pnl),
{
    proof {
        lemma_units_sign(pnl.net_pnl);
    }
    if !is_in_range(current_tick, position.tick_lower, position.tick_upper) || pnl.net_pnl.is_negative() {
        HealthStatus::Critical
    } else if is_near_edge(current_tick, position.tick_lower, position.tick_upper) {
        HealthStatus::Warning
    } else {
        HealthStatus::Healthy
    }
}

/// A sentence explaining the health of `position` at `current_tick`.
pub fn get_health_details(position: &Position, current_tick: i32, pnl: &PositionPnL) -> (r: String)
    ensures
        r@ == health_details_of(position.tick_lower, position.tick_upper, current_tick, pnl.net_pnl),
{
    proof {
        lemma_units_sign(pnl.net_pnl);
    }
    if !is_in_range(current_tick, position.tick_lower, position.tick_upper) {
        "Critical: the current tick is outside the position's range".to_owned()
    } else if pnl.net_pnl.is_negative() {
        "Critical: the position's net P&L is negative".to_owned()
    } else if is_near_edge(current_tick, position.tick_lower, position.tick_upper) {
        "Warning: the current tick is within 10% of the range's half-width of an edge".to_owned()
    } else {
        "Healthy: the position is in range, away from its edges, with non-negative net P&L".to_owned()
    }
}

} // verus!
