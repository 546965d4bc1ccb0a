//! Deterministic record addressing.
//!
//! Every persisted record of a pool lives at an address derived from a tag
//! and a parent identity, so any party can recompute the address of a pool's
//! state, of its vault, or of a depositor's transaction record from public
//! identifiers alone.
use vstd::prelude::*;

use crate::constants::TRANSACTION_TAG;

verus! {

/// A derived record address: a tag naming the kind of record, and the
/// identity of the record's parent (a collateral asset for pool-level
/// records, a depositor for transaction records).
#[derive(Clone, Copy, Debug, PartialEq, Eq, Structural)]
pub struct Address {
    pub tag: u64,
    pub parent: u64,
}

/// The address at which a depositor's transaction record is stored.
pub open spec fn spec_record_address(authority: u64) -> Address {
    Address { tag: TRANSACTION_TAG, parent: authority }
}

/// Derives the address of a record from its tag and its parent identity.
/// The derivation is pure: the same inputs always give the same address.
pub fn derive_address(tag: u64, parent: u64) -> (a: Address)
    ensures
        a == (Address { tag, parent }),
{
    Address { tag, parent }
}

/// Address derivation is injective: two records can share an address only
/// if they have the same tag and the same parent identity. Create-once
/// semantics keyed by address therefore mean create-once per depositor.
pub proof fn lemma_derive_address_injective(t1: u64, p1: u64, t2: u64, p2: u64)
    ensures
        (Address { tag: t1, parent: p1 }) == (Address { tag: t2, parent: p2 }) <==> (t1 == t2
            && p1 == p2),
{
}

} // verus!
