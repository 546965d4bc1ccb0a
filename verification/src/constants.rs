//! Pool-wide constants: record-address tags and fixed quantities.
use vstd::prelude::*;

verus! {

/// Tag under which a pool's state record is addressed (parent: the
/// collateral asset's identity).
pub const POOL_STATE_TAG: u64 = 1;

/// Tag under which the pool's signing capability is addressed.
pub const POOL_AUTHORITY_TAG: u64 = 2;

/// Tag under which the pool's collateral vault is addressed.
pub const POOL_VAULT_TAG: u64 = 3;

/// Tag under which the pool-share asset is addressed.
pub const POOL_MINT_TAG: u64 = 4;

/// Tag under which a depositor's transaction record is addressed (parent:
/// the depositor's identity).
pub const TRANSACTION_TAG: u64 = 5;

/// Value written to `credit_outstanding` at pool initialization; never
/// mutated afterwards.
pub const CREDIT_OUTSTANDING: u64 = 7348028;

/// Fixed quantity of the pool-share asset minted to every depositor who
/// resolves while the vault meets the funding threshold, independent of the
/// amount that depositor contributed.
pub const MINT_AMOUNT: u64 = 10;

} // verus!
