//! Pool lifecycle controller: initialize, disable, enable.
use vstd::prelude::*;

use crate::address::derive_address;
use crate::address::Address;
use crate::constants::CREDIT_OUTSTANDING;
use crate::constants::POOL_STATE_TAG;
use crate::ledger::RecordStore;
use crate::states::spec_disabled;
use crate::states::spec_enabled;
use crate::states::spec_initial_state;
use crate::states::PoolState;
use crate::token::PoolAuthority;
use crate::token::ShareMint;
use crate::token::TokenAccount;

verus! {

/// One pool: its state record, the shared collateral vault, the pool-share
/// asset, its signing capability, and the store of open transaction
/// records. All of it is addressed deterministically from the collateral
/// asset's identity.
pub struct Pool {
    pub pool_state: PoolState,
    pub pool_vault: TokenAccount,
    pub pool_mint: ShareMint,
    pub pool_authority: PoolAuthority,
    /// Address of the pool state record, derived from the collateral
    /// asset's identity.
    pub state_address: Address,
    pub records: RecordStore,
}

impl Pool {
    /// Well-formedness of a pool:
    /// - the record store is well formed (one open record per depositor);
    /// - the vault covers the sum of all open deposits, so a refund of any
    ///   single open deposit can always be paid;
    /// - the share asset is minted only by this pool's capability.
    pub open spec fn wf(self) -> bool {
        &&& self.records.wf()
        &&& self.records.total() <= self.pool_vault.balance
        &&& self.pool_mint.authority == self.pool_authority.pool_state
        &&& self.pool_authority.pool_state == self.state_address
    }

    /// The pool after a disable: only `is_active` drops; the vault, the
    /// share asset and every transaction record stay untouched.
    pub open spec fn spec_disable(self) -> Pool {
        Pool { pool_state: spec_disabled(self.pool_state), ..self }
    }

    /// The pool after an enable: `is_active` is set and the activation
    /// time refreshed; the vault, the share asset and every transaction
    /// record stay untouched.
    pub open spec fn spec_enable(self, now: u64) -> Pool {
        Pool { pool_state: spec_enabled(self.pool_state, now), ..self }
    }
}

/// Creates a pool for the given collateral asset: state record (active,
/// stamped `now`, `credit_outstanding` at its fixed constant), an empty
/// vault, a fresh share asset, and the pool's signing capability, all
/// addressed from the collateral asset's identity. Creation at an already
/// occupied state address is refused by the hosting record store's
/// create-once semantics, before this constructor runs.
pub fn initialize_pool(
    collateral: u64,
    funding_threshold: u64,
    duration_minutes: u64,
    now: u64,
) -> (p: Pool)
    ensures
        p.wf(),
        p.pool_state == spec_initial_state(funding_threshold, duration_minutes, now),
        p.pool_vault.balance == 0,
        p.pool_mint.supply == 0,
        p.state_address == (Address { tag: POOL_STATE_TAG, parent: collateral }),
        p.records.entries@.len() == 0,
        forall|a: u64| !p.records.has_record(a),
{
    let state_address = derive_address(POOL_STATE_TAG, collateral);
    Pool {
        pool_state: PoolState {
            funding_threshold,
            duration_minutes,
            credit_outstanding: CREDIT_OUTSTANDING,
            is_active: true,
            activation_time: now,
        },
        pool_vault: TokenAccount { balance: 0 },
        pool_mint: ShareMint { supply: 0, authority: state_address },
        pool_authority: PoolAuthority { pool_state: state_address },
        state_address,
        records: RecordStore::new(),
    }
}

/// Disables the pool: deposits stop, resolutions become legal. Callable in
/// any state (disabling an inactive pool is a no-op); nothing but
/// `is_active` changes. Caller authorization is verified by the hosting
/// environment.
pub fn disable_pool(pool: &mut Pool)
    requires
        old(pool).wf(),
    ensures
        final(pool).wf(),
        *final(pool) == old(pool).spec_disable(),
{
    pool.pool_state.is_active = false;
}

/// Enables the pool: deposits become legal again, resolutions stop, and
/// the activation time is refreshed to `now`. Idempotent; nothing but
/// `is_active` and `activation_time` changes. Caller authorization is
/// verified by the hosting environment.
pub fn enable_pool(pool: &mut Pool, now: u64)
    requires
        old(pool).wf(),
    ensures
        final(pool).wf(),
        *final(pool) == old(pool).spec_enable(now),
{
    pool.pool_state.is_active = true;
    pool.pool_state.activation_time = now;
}

} // verus!
