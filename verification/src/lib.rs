//! Per-account liquidity and lock-status reporting for a conviction-voting
//! governance chain.
//!
//! Given chain state for one account — class locks, conviction-voting
//! records, referendum status, balance-lock totals and vesting schedules —
//! the library reconstructs the account's active token locks, collapses
//! them into a fixed ladder of unlock-horizon buckets, and composes the
//! textual report document that a templating front end renders.

pub mod chain;
pub mod clock;
pub mod conviction;
pub mod interval;
pub mod ladder;
pub mod report;
pub mod resolver;
pub mod units;
pub mod vesting;
