//! Deposit ledger and settlement resolver.
//!
//! Deposits are legal only while the pool is active; settlement only while
//! it is inactive. The mint-versus-refund decision is evaluated against the
//! vault balance at the moment each individual depositor resolves — there
//! is no snapshot, so resolution order can matter (see `spec_settle_action`).
use vstd::prelude::*;

use crate::constants::MINT_AMOUNT;
use crate::errors::ErrorCode;
use crate::pool::Pool;
use crate::token::mint_to;
use crate::token::transfer;
use crate::token::TokenAccount;

verus! {

/// What a resolution pays out: a fixed quantity of the pool-share asset,
/// or a refund of the depositor's own recorded deposit.
#[derive(Clone, Copy, Debug, PartialEq, Eq, Structural)]
pub enum SettleAction {
    /// Mint this many pool-share units to the depositor.
    Mint(u64),
    /// Transfer this many collateral units from the vault back to the
    /// depositor.
    Refund(u64),
}

/// A vault balance meets the pool's funding threshold.
pub open spec fn spec_is_funded(vault_balance: u64, funding_threshold: u64) -> bool {
    vault_balance >= funding_threshold
}

/// True exactly when the vault balance meets the funding threshold, the
/// condition that decides mint-versus-refund at resolution time.
pub fn vault_is_funded(vault_balance: u64, funding_threshold: u64) -> (r: bool)
    ensures
        r == spec_is_funded(vault_balance, funding_threshold),
{
    vault_balance >= funding_threshold
}

/// The settlement decision rule, evaluated against the *current* vault
/// balance at the moment a depositor resolves: if the vault meets the
/// funding threshold, a fixed `MINT_AMOUNT` of pool shares is minted,
/// independent of the depositor's own contribution; otherwise the
/// depositor's own recorded deposit is refunded.
pub open spec fn spec_settle_action(
    vault_balance: u64,
    funding_threshold: u64,
    deposit: u64,
) -> SettleAction {
    if spec_is_funded(vault_balance, funding_threshold) {
        SettleAction::Mint(MINT_AMOUNT)
    } else {
        SettleAction::Refund(deposit)
    }
}

/// Computes the settlement decision for one depositor from the state read
/// at call time.
pub fn settle_action(vault_balance: u64, funding_threshold: u64, deposit: u64) -> (a: SettleAction)
    ensures
        a == spec_settle_action(vault_balance, funding_threshold, deposit),
{
    if vault_is_funded(vault_balance, funding_threshold) {
        SettleAction::Mint(MINT_AMOUNT)
    } else {
        SettleAction::Refund(deposit)
    }
}

/// Gate of the deposit ledger, checked in this order: the pool must be
/// active, then the depositor's spendable balance must cover the amount.
pub fn deposit_gate(is_active: bool, user_balance: u64, amount_in: u64) -> (r: Result<
    (),
    ErrorCode,
>)
    ensures
        r == (if !is_active {
            Err::<(), ErrorCode>(ErrorCode::PoolNotActive)
        } else if amount_in > user_balance {
            Err::<(), ErrorCode>(ErrorCode::NotEnoughBalance)
        } else {
            Ok::<(), ErrorCode>(())
        }),
{
    if !is_active {
        Err(ErrorCode::PoolNotActive)
    } else if amount_in > user_balance {
        Err(ErrorCode::NotEnoughBalance)
    } else {
        Ok(())
    }
}

/// Gate of the settlement resolver: the pool must be inactive.
pub fn resolve_gate(is_active: bool) -> (r: Result<(), ErrorCode>)
    ensures
        r == (if is_active {
            Err::<(), ErrorCode>(ErrorCode::PoolStillActive)
        } else {
            Ok::<(), ErrorCode>(())
        }),
{
    if is_active {
        Err(ErrorCode::PoolStillActive)
    } else {
        Ok(())
    }
}

/// Outcome of a deposit attempt, checked in this order: the pool must be
/// active, the depositor's spendable balance must cover the amount, no
/// record may already be open for the depositor, and the vault balance
/// must still fit in a `u64` afterwards.
pub open spec fn spec_deposit_result(
    p: Pool,
    user_balance: u64,
    authority: u64,
    amount_in: u64,
) -> Result<(), ErrorCode> {
    if !p.pool_state.is_active {
        Err(ErrorCode::PoolNotActive)
    } else if amount_in > user_balance {
        Err(ErrorCode::NotEnoughBalance)
    } else if p.records.has_record(authority) {
        Err(ErrorCode::DuplicateRecord)
    } else if p.pool_vault.balance + amount_in > u64::MAX {
        Err(ErrorCode::TransferFailure)
    } else {
        Ok(())
    }
}

/// Outcome of a resolution attempt: the pool must be inactive and the
/// depositor must hold an open record; then the settlement decision is
/// paid out, failing fatally (and without effect) only if the payout
/// itself cannot be represented. A refund can always be drawn from the
/// vault of a well-formed pool, so vault sufficiency never fails.
pub open spec fn spec_resolve_result(
    p: Pool,
    user_ata: TokenAccount,
    user_pool_ata: TokenAccount,
    authority: u64,
) -> Result<(), ErrorCode> {
    if p.pool_state.is_active {
        Err(ErrorCode::PoolStillActive)
    } else if !p.records.has_record(authority) {
        Err(ErrorCode::RecordNotFound)
    } else {
        match spec_settle_action(
            p.pool_vault.balance,
            p.pool_state.funding_threshold,
            p.records.amount_of(authority),
        ) {
            SettleAction::Mint(m) => if p.pool_mint.supply + m > u64::MAX || user_pool_ata.balance
                + m > u64::MAX {
                Err(ErrorCode::MintFailure)
            } else {
                Ok(())
            },
            SettleAction::Refund(x) => if user_ata.balance + x > u64::MAX {
                Err(ErrorCode::TransferFailure)
            } else {
                Ok(())
            },
        }
    }
}

/// Deposits `amount_in` collateral into the pool: transfers it from the
/// depositor's account to the vault and creates the depositor's
/// transaction record, exactly once per open position. On any failure
/// nothing changes.
pub fn add_liquidity(
    pool: &mut Pool,
    user_ata: &mut TokenAccount,
    authority: u64,
    amount_in: u64,
) -> (r: Result<(), ErrorCode>)
    requires
        old(pool).wf(),
    ensures
        final(pool).wf(),
        r == spec_deposit_result(*old(pool), old(user_ata).balance, authority, amount_in),
        !old(pool).pool_state.is_active ==> r == Err::<(), ErrorCode>(ErrorCode::PoolNotActive),
        r is Err ==> *final(pool) == *old(pool) && *final(user_ata) == *old(user_ata),
        r is Ok ==> final(user_ata).balance == old(user_ata).balance - amount_in,
        r is Ok ==> final(pool).pool_vault.balance == old(pool).pool_vault.balance + amount_in,
        r is Ok ==> final(pool).records.has_record(authority) && final(pool).records.amount_of(
            authority,
        ) == amount_in,
        r is Ok ==> forall|a: u64|
            a != authority ==> final(pool).records.has_record(a) == old(pool).records.has_record(
                a,
            ),
        r is Ok ==> forall|a: u64|
            a != authority && old(pool).records.has_record(a) ==> final(pool).records.amount_of(a)
                == old(pool).records.amount_of(a),
        r is Ok ==> final(pool).records.entries@.len() == old(pool).records.entries@.len() + 1,
        r is Ok ==> final(pool).records.total() == old(pool).records.total() + amount_in,
        final(pool).pool_state == old(pool).pool_state,
        final(pool).pool_mint == old(pool).pool_mint,
        final(pool).pool_authority == old(pool).pool_authority,
        final(pool).state_address == old(pool).state_address,
{
    match deposit_gate(pool.pool_state.is_active, user_ata.balance, amount_in) {
        Err(e) => {
            return Err(e);
        },
        Ok(()) => {},
    }
    if pool.records.get(authority).is_some() {
        return Err(ErrorCode::DuplicateRecord);
    }
    if amount_in > u64::MAX - pool.pool_vault.balance {
        return Err(ErrorCode::TransferFailure);
    }
    match transfer(user_ata, &mut pool.pool_vault, amount_in) {
        Err(e) => {
            return Err(e);
        },
        Ok(()) => {},
    }
    match pool.records.create(authority, amount_in) {
        Err(e) => Err(e),
        Ok(()) => Ok(()),
    }
}

/// Resolves one depositor's position against the pool-level outcome read
/// at call time: pays the settlement decision out (fixed mint or refund of
/// the recorded deposit) and destroys the transaction record, reclaiming
/// its storage to the depositor. Payment precedes closure, and on any
/// failure nothing changes, so a closed record always has its payout.
pub fn ask_output(
    pool: &mut Pool,
    user_ata: &mut TokenAccount,
    user_pool_ata: &mut TokenAccount,
    authority: u64,
) -> (r: Result<(), ErrorCode>)
    requires
        old(pool).wf(),
    ensures
        final(pool).wf(),
        r == spec_resolve_result(*old(pool), *old(user_ata), *old(user_pool_ata), authority),
        old(pool).pool_state.is_active ==> r == Err::<(), ErrorCode>(ErrorCode::PoolStillActive),
        !old(pool).pool_state.is_active && !old(pool).records.has_record(authority) ==> r
            == Err::<(), ErrorCode>(ErrorCode::RecordNotFound),
        r is Err ==> *final(pool) == *old(pool) && *final(user_ata) == *old(user_ata)
            && *final(user_pool_ata) == *old(user_pool_ata),
        r is Ok ==> !final(pool).records.has_record(authority),
        r is Ok ==> forall|a: u64|
            a != authority ==> final(pool).records.has_record(a) == old(pool).records.has_record(
                a,
            ),
        r is Ok ==> forall|a: u64|
            a != authority && old(pool).records.has_record(a) ==> final(pool).records.amount_of(a)
                == old(pool).records.amount_of(a),
        r is Ok ==> final(pool).records.entries@.len() == old(pool).records.entries@.len() - 1,
        r is Ok && spec_is_funded(
            old(pool).pool_vault.balance,
            old(pool).pool_state.funding_threshold,
        ) ==> final(pool).pool_mint.supply == old(pool).pool_mint.supply + MINT_AMOUNT
            && final(user_pool_ata).balance == old(user_pool_ata).balance + MINT_AMOUNT
            && final(pool).pool_vault == old(pool).pool_vault
            && *final(user_ata) == *old(user_ata),
        r is Ok && !spec_is_funded(
            old(pool).pool_vault.balance,
            old(pool).pool_state.funding_threshold,
        ) ==> final(pool).pool_vault.balance == old(pool).pool_vault.balance - old(
            pool,
        ).records.amount_of(authority) && final(user_ata).balance == old(user_ata).balance + old(
            pool,
        ).records.amount_of(authority) && final(pool).pool_mint == old(pool).pool_mint
            && *final(user_pool_ata) == *old(user_pool_ata),
        final(pool).pool_state == old(pool).pool_state,
        final(pool).pool_authority == old(pool).pool_authority,
        final(pool).state_address == old(pool).state_address,
{
    match resolve_gate(pool.pool_state.is_active) {
        Err(e) => {
            return Err(e);
        },
        Ok(()) => {},
    }
    let amount = match pool.records.get(authority) {
        None => {
            return Err(ErrorCode::RecordNotFound);
        },
        Some(a) => a,
    };
    let action = settle_action(
        pool.pool_vault.balance,
        pool.pool_state.funding_threshold,
        amount,
    );
    match action {
        SettleAction::Mint(m) => {
            match mint_to(&mut pool.pool_mint, user_pool_ata, m, &pool.pool_authority) {
                Err(e) => {
                    return Err(e);
                },
                Ok(()) => {},
            }
        },
        SettleAction::Refund(x) => {
            proof {
                pool.records.lemma_amount_le_total(authority);
            }
            match transfer(&mut pool.pool_vault, user_ata, x) {
                Err(e) => {
                    return Err(e);
                },
                Ok(()) => {},
            }
        },
    }
    match pool.records.close(authority) {
        Err(e) => Err(e),
        Ok(_) => Ok(()),
    }
}

} // verus!
