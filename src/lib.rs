//! Valuation and risk classification of concentrated-liquidity positions.
pub mod decimal;
pub mod ticks;
pub mod models;
pub mod liquidity;
pub mod pnl;
pub mod health;
pub mod api;
