//! Error kinds surfaced by the pool's operations.
use vstd::prelude::*;

verus! {

/// Every failure an operation of the settlement core can report. All errors
/// are surfaced synchronously; no operation retries internally, and a failed
/// operation leaves every piece of state unchanged.
#[derive(Clone, Copy, Debug, PartialEq, Eq, Structural)]
pub enum ErrorCode {
    /// A deposit asked for more than the depositor's spendable balance.
    NotEnoughBalance,
    /// A resolution was attempted while the pool is still active.
    PoolStillActive,
    /// A deposit was attempted while the pool is not active.
    PoolNotActive,
    /// Reserved: a settlement was already paid out. No operation of this
    /// crate produces it; a repeated resolution fails with `RecordNotFound`
    /// instead, because resolution destroys the transaction record.
    AlreadyPaid,
    /// A second deposit was attempted while a transaction record for the
    /// same depositor is still open (create-once semantics of the record
    /// store).
    DuplicateRecord,
    /// A resolution was attempted by a depositor with no open transaction
    /// record.
    RecordNotFound,
    /// The asset transfer service could not move collateral (source balance
    /// too small, or the destination balance would not fit in a `u64`).
    TransferFailure,
    /// The asset transfer service could not mint pool shares (the supply or
    /// the destination balance would not fit in a `u64`).
    MintFailure,
}

} // verus!
