//! A tick-driven simulation core for a collateralised lending protocol: price
//! trajectories replayed one sample per tick, account health checks, and the
//! choice of which market to repay and which to seize when liquidating.

pub mod clock;
pub mod error;
pub mod health;
pub mod liquidation;
pub mod liquidator;
pub mod market;
pub mod price_changer;
pub mod valuation;
