//! Pool-level laws: statements that relate several operations, proved once
//! and for all over the same spec functions the operations' contracts use.
use vstd::prelude::*;

use crate::errors::ErrorCode;
use crate::pool::Pool;
use crate::token::TokenAccount;
use crate::transaction::spec_deposit_result;
use crate::transaction::spec_resolve_result;

verus! {

/// A deposit attempted while the pool is inactive fails with
/// `PoolNotActive`, regardless of the depositor's balance, of the amount,
/// and of whether a record is already open.
pub proof fn lemma_deposit_requires_active(
    p: Pool,
    user_balance: u64,
    authority: u64,
    amount_in: u64,
)
    requires
        !p.pool_state.is_active,
    ensures
        spec_deposit_result(p, user_balance, authority, amount_in) == Err::<(), ErrorCode>(
            ErrorCode::PoolNotActive,
        ),
{
}

/// A second deposit before resolution fails with `DuplicateRecord`: a
/// depositor cannot hold two simultaneously open transaction records.
pub proof fn lemma_no_second_deposit(p: Pool, user_balance: u64, authority: u64, amount_in: u64)
    requires
        p.pool_state.is_active,
        amount_in <= user_balance,
        p.records.has_record(authority),
    ensures
        spec_deposit_result(p, user_balance, authority, amount_in) == Err::<(), ErrorCode>(
            ErrorCode::DuplicateRecord,
        ),
{
}

/// A resolution attempted while the pool is active fails with
/// `PoolStillActive`, whatever the vault holds and whoever asks.
pub proof fn lemma_resolve_requires_inactive(
    p: Pool,
    user_ata: TokenAccount,
    user_pool_ata: TokenAccount,
    authority: u64,
)
    requires
        p.pool_state.is_active,
    ensures
        spec_resolve_result(p, user_ata, user_pool_ata, authority) == Err::<(), ErrorCode>(
            ErrorCode::PoolStillActive,
        ),
{
}

/// Resolution is a one-time, destructive read: once a depositor's record
/// is gone — and a successful resolution removes it — any further
/// resolution by the same depositor fails with `RecordNotFound`.
pub proof fn lemma_resolve_is_final(
    p: Pool,
    user_ata: TokenAccount,
    user_pool_ata: TokenAccount,
    authority: u64,
)
    requires
        !p.pool_state.is_active,
        !p.records.has_record(authority),
    ensures
        spec_resolve_result(p, user_ata, user_pool_ata, authority) == Err::<(), ErrorCode>(
            ErrorCode::RecordNotFound,
        ),
{
}

/// Enabling and then immediately disabling a pool touches nothing but the
/// state record: the vault, the share asset and every transaction record
/// are exactly what they were, and the pool ends inactive with the
/// activation time refreshed.
pub proof fn lemma_enable_then_disable(p: Pool, now: u64)
    ensures
        p.spec_enable(now).spec_disable().pool_vault == p.pool_vault,
        p.spec_enable(now).spec_disable().pool_mint == p.pool_mint,
        p.spec_enable(now).spec_disable().records == p.records,
        p.spec_enable(now).spec_disable().pool_state.is_active == false,
        p.spec_enable(now).spec_disable().pool_state.activation_time == now,
        p.spec_enable(now).spec_disable().pool_state.funding_threshold
            == p.pool_state.funding_threshold,
        p.spec_enable(now).spec_disable().pool_state.credit_outstanding
            == p.pool_state.credit_outstanding,
        p.spec_enable(now).spec_disable().pool_state.duration_minutes
            == p.pool_state.duration_minutes,
{
}

} // verus!
