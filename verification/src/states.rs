//! Persistent record types of a pool and their lifecycle transitions.
use vstd::prelude::*;

use crate::constants::CREDIT_OUTSTANDING;

verus! {

/// The state record of one pool, addressed by the collateral asset's
/// identity. `is_active` gates the two halves of the pool's life: deposits
/// are legal only while active, resolutions only while inactive.
#[derive(Clone, Copy, Debug, PartialEq, Eq, Structural)]
pub struct PoolState {
    /// Minimum vault balance at which the pool counts as fully funded at
    /// the moment a resolution is evaluated.
    pub funding_threshold: u64,
    /// Intended open duration; informational only, never checked by the
    /// resolver.
    pub duration_minutes: u64,
    /// Fixed constant written at initialization and never mutated by this
    /// core.
    pub credit_outstanding: u64,
    /// True after initialization and after every enable; false after every
    /// disable. No other transition exists.
    pub is_active: bool,
    /// Unix seconds of the most recent activation.
    pub activation_time: u64,
}

/// One depositor's open position: at most one live record exists per
/// depositor, created by a deposit and destroyed by a resolution.
#[derive(Clone, Copy, Debug, PartialEq, Eq, Structural)]
pub struct TransactionAccount {
    /// The depositor who may resolve this record.
    pub authority: u64,
    /// The quantity deposited, set once at deposit time and immutable
    /// afterwards.
    pub amount: u64,
}

/// The pool state written by initialization: active, stamped with the
/// current time, with `credit_outstanding` at its fixed constant.
pub open spec fn spec_initial_state(funding_threshold: u64, duration_minutes: u64, now: u64) -> PoolState {
    PoolState {
        funding_threshold,
        duration_minutes,
        credit_outstanding: CREDIT_OUTSTANDING,
        is_active: true,
        activation_time: now,
    }
}

/// The transition performed by disabling a pool: only `is_active` changes.
pub open spec fn spec_disabled(s: PoolState) -> PoolState {
    PoolState { is_active: false, ..s }
}

/// The transition performed by enabling a pool: `is_active` is set and the
/// activation time is refreshed; nothing else changes.
pub open spec fn spec_enabled(s: PoolState, now: u64) -> PoolState {
    PoolState { is_active: true, activation_time: now, ..s }
}

} // verus!
