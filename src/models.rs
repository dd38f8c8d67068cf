//! The records the analytics read and produce.
use crate::decimal::{dec, Dec, MAX_MANTISSA};
use vstd::prelude::*;

verus! {

/// An unsigned 256-bit integer: `high * 2^128 + low`.
#[derive(Clone, Copy, Debug)]
pub struct Uint256 {
    pub high: u128,
    pub low: u128,
}

/// The decimal holding the integer `v`, if it fits a 96-bit mantissa.
pub open spec fn integer_dec(v: nat) -> Option<Dec> {
    if v <= MAX_MANTISSA {
        Some(dec(v as int, 0))
    } else {
        None
    }
}

impl Uint256 {
    pub open spec fn value(self) -> nat {
        (self.high * 0x1_0000_0000_0000_0000_0000_0000_0000_0000 + self.low) as nat
    }

    /// The integer `v`.
    pub fn from_u128(v: u128) -> (r: Uint256)
        ensures
            r.value() == v,
    {
        Uint256 { high: 0, low: v }
    }

    /// The value as a decimal, or `None` where it exceeds the decimal range.
    pub fn to_dec(&self) -> (r: Option<Dec>)
        ensures
            r == integer_dec(self.value()),
            r matches Some(d) ==> d.wf(),
    {
        if self.high == 0 && self.low <= MAX_MANTISSA as u128 {
            Some(Dec { mantissa: self.low as i128, scale: 0 })
        } else {
            proof {
                if self.high > 0 {
                    assert(self.high * 0x1_0000_0000_0000_0000_0000_0000_0000_0000 >= 0x1_0000_0000_0000_0000_0000_0000_0000_0000) by (nonlinear_arith)
                        requires
                            self.high >= 1,
                    ;
                }
            }
            None
        }
    }
}

/// A signed 256-bit integer held as a sign and a magnitude.
#[derive(Clone, Copy, Debug)]
pub struct Int256 {
    pub negative: bool,
    pub magnitude: Uint256,
}

impl Int256 {
    pub open spec fn value(self) -> int {
        if self.negative {
            -self.magnitude.value()
        } else {
            self.magnitude.value() as int
        }
    }

    /// The integer `v`.
    pub fn from_i64(v: i64) -> (r: Int256)
        ensures
            r.value() == v,
    {
        if v < 0 {
            Int256 { negative: true, magnitude: Uint256::from_u128((-(v as i128)) as u128) }
        } else {
            Int256 { negative: false, magnitude: Uint256::from_u128(v as u128) }
        }
    }
}

/// A liquidity position over the tick range `[tick_lower, tick_upper)`.
#[derive(Clone, Debug)]
pub struct Position {
    pub id: i64,
    pub nft_id: String,
    pub owner: String,
    pub pool_id: String,
    pub tick_lower: i32,
    pub tick_upper: i32,
    pub liquidity: Uint256,
    /// Creation time in microseconds since the Unix epoch.
    pub created_at: i64,
}

/// A swap in a pool; the signs of the amounts give the direction of flow.
#[derive(Clone, Debug)]
pub struct Swap {
    pub id: i64,
    pub tx_hash: String,
    pub pool_id: String,
    pub amount0: Int256,
    pub amount1: Int256,
    /// Time of the swap in microseconds since the Unix epoch.
    pub timestamp: i64,
}

/// Profit and loss of a position.
#[derive(Clone, Copy, Debug)]
pub struct PositionPnL {
    pub fees_earned: Dec,
    pub impermanent_loss: Dec,
    pub gas_spent: Dec,
    pub net_pnl: Dec,
}

/// Health of a position.
#[derive(Clone, Copy, Debug, PartialEq, Eq, Structural)]
pub enum HealthStatus {
    /// In range, positive P&L
    Healthy,
    /// Near out of range (within 10% of range edge)
    Warning,
    /// Out of range or negative P&L
    Critical,
}

impl HealthStatus {
    /// A human-readable description of the status.
    pub fn description(&self) -> (r: &'static str)
        ensures
            r@ == (match self {
                HealthStatus::Healthy => "Position is in range with positive P&L"@,
                HealthStatus::Warning => "Position is near the edge of its range"@,
                HealthStatus::Critical => "Position is out of range or has negative P&L"@,
            }),
    {
        match self {
            HealthStatus::Healthy => "Position is in range with positive P&L",
            HealthStatus::Warning => "Position is near the edge of its range",
            HealthStatus::Critical => "Position is out of range or has negative P&L",
        }
    }

    /// The name of the status.
    pub fn name(&self) -> (r: &'static str)
        ensures
            r@ == (match self {
                HealthStatus::Healthy => "Healthy"@,
                HealthStatus::Warning => "Warning"@,
                HealthStatus::Critical => "Critical"@,
            }),
    {
        match self {
            HealthStatus::Healthy => "Healthy",
            HealthStatus::Warning => "Warning",
            HealthStatus::Critical => "Critical",
        }
    }
}

} // verus!
