//! Accounting and settlement core of a time-bounded liquidity pool.
//!
//! Depositors lock collateral while the pool is open; once the pool is
//! disabled, each depositor resolves their position into either a fixed
//! pool-share payout (when the vault met the funding threshold at the moment
//! of resolution) or a refund of their own deposit.
pub mod address;
pub mod constants;
pub mod errors;
pub mod laws;
pub mod ledger;
pub mod pool;
pub mod states;
pub mod token;
pub mod transaction;
