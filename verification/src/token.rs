//! In-model interface of the asset transfer service.
//!
//! Token custody itself is an external collaborator of the pool; what the
//! settlement core depends on is only the balance arithmetic stated here:
//! transfers conserve units and fail without effect when they cannot be
//! performed, and mints are authorized by the pool's signing capability.
use vstd::prelude::*;

use crate::address::Address;
use crate::errors::ErrorCode;

verus! {

/// A custodial account holding fungible collateral units. The pool's vault
/// is one such account; each depositor holds their own.
#[derive(Clone, Copy, Debug, PartialEq, Eq, Structural)]
pub struct TokenAccount {
    pub balance: u64,
}

/// The pool-share asset: a mintable token whose minting authority is the
/// pool's signing capability.
#[derive(Clone, Copy, Debug, PartialEq, Eq, Structural)]
pub struct ShareMint {
    /// Total units minted so far.
    pub supply: u64,
    /// The capability identity allowed to mint; set at pool initialization.
    pub authority: Address,
}

/// The pool-controlled signing capability. It is owned by the pool and
/// passed explicitly to the asset transfer service on every mint; whether a
/// caller legitimately holds it is the hosting environment's concern
/// (signer verification is outside this core).
#[derive(Clone, Copy, Debug, PartialEq, Eq, Structural)]
pub struct PoolAuthority {
    /// Address of the pool state this capability signs for.
    pub pool_state: Address,
}

/// Moves `amount` collateral units from one custodial account to another.
/// Succeeds exactly when the source holds enough and the destination
/// balance still fits in a `u64`; a failed transfer changes nothing.
pub fn transfer(from: &mut TokenAccount, to: &mut TokenAccount, amount: u64) -> (r: Result<
    (),
    ErrorCode,
>)
    ensures
        r is Ok <==> old(from).balance >= amount && old(to).balance + amount <= u64::MAX,
        r is Ok ==> final(from).balance == old(from).balance - amount,
        r is Ok ==> final(to).balance == old(to).balance + amount,
        r is Ok ==> final(from).balance + final(to).balance == old(from).balance + old(
            to,
        ).balance,
        r is Err ==> *final(from) == *old(from) && *final(to) == *old(to) && r == Err::<
            (),
            ErrorCode,
        >(ErrorCode::TransferFailure),
{
    if amount > from.balance {
        return Err(ErrorCode::TransferFailure);
    }
    if amount > u64::MAX - to.balance {
        return Err(ErrorCode::TransferFailure);
    }
    from.balance = from.balance - amount;
    to.balance = to.balance + amount;
    Ok(())
}

/// Mints `amount` new pool-share units to a depositor's share account,
/// authorized by the pool's signing capability. Succeeds exactly when both
/// the total supply and the destination balance still fit in a `u64`; a
/// failed mint changes nothing.
pub fn mint_to(
    mint: &mut ShareMint,
    to: &mut TokenAccount,
    amount: u64,
    authority: &PoolAuthority,
) -> (r: Result<(), ErrorCode>)
    requires
        old(mint).authority == authority.pool_state,
    ensures
        r is Ok <==> old(mint).supply + amount <= u64::MAX && old(to).balance + amount
            <= u64::MAX,
        r is Ok ==> final(mint).supply == old(mint).supply + amount,
        r is Ok ==> final(to).balance == old(to).balance + amount,
        final(mint).authority == old(mint).authority,
        r is Err ==> *final(mint) == *old(mint) && *final(to) == *old(to) && r == Err::<
            (),
            ErrorCode,
        >(ErrorCode::MintFailure),
{
    if amount > u64::MAX - mint.supply {
        return Err(ErrorCode::MintFailure);
    }
    if amount > u64::MAX - to.balance {
        return Err(ErrorCode::MintFailure);
    }
    mint.supply = mint.supply + amount;
    to.balance = to.balance + amount;
    Ok(())
}

} // verus!
