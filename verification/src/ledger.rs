//! The pool-scoped record store holding depositors' transaction records.
//!
//! The store is an explicit index keyed by the derived record address:
//! create-once (a second record at an occupied address is refused), lookup,
//! and close-with-reclaim. Together with the injectivity of address
//! derivation this yields at most one live transaction record per depositor.
use vstd::prelude::*;

use crate::address::derive_address;
use crate::address::spec_record_address;
use crate::address::Address;
use crate::constants::TRANSACTION_TAG;
use crate::errors::ErrorCode;
use crate::states::TransactionAccount;

verus! {

/// One stored entry: a transaction record together with the address it was
/// created at.
#[derive(Clone, Copy, Debug, PartialEq, Eq, Structural)]
pub struct Record {
    pub addr: Address,
    pub account: TransactionAccount,
}

/// Sum of the deposited amounts over a sequence of entries.
pub open spec fn sum_amounts(s: Seq<Record>) -> int
    decreases s.len(),
{
    if s.len() == 0 {
        0
    } else {
        sum_amounts(s.drop_last()) + s.last().account.amount
    }
}

pub proof fn lemma_sum_nonneg(s: Seq<Record>)
    ensures
        sum_amounts(s) >= 0,
    decreases s.len(),
{
    if s.len() > 0 {
        lemma_sum_nonneg(s.drop_last());
    }
}

pub proof fn lemma_sum_bound(s: Seq<Record>, i: int)
    requires
        0 <= i < s.len(),
    ensures
        s[i].account.amount <= sum_amounts(s),
    decreases s.len(),
{
    if i == s.len() - 1 {
        lemma_sum_nonneg(s.drop_last());
    } else {
        lemma_sum_bound(s.drop_last(), i);
    }
}

pub proof fn lemma_sum_push(s: Seq<Record>, r: Record)
    ensures
        sum_amounts(s.push(r)) == sum_amounts(s) + r.account.amount,
{
    assert(s.push(r).drop_last() =~= s);
}

pub proof fn lemma_sum_remove(s: Seq<Record>, i: int)
    requires
        0 <= i < s.len(),
    ensures
        sum_amounts(s.remove(i)) == sum_amounts(s) - s[i].account.amount,
    decreases s.len(),
{
    if i == s.len() - 1 {
        assert(s.remove(i) =~= s.drop_last());
    } else {
        let t = s.drop_last();
        assert(s.remove(i).drop_last() =~= t.remove(i));
        assert(s.remove(i).last() == s.last());
        lemma_sum_remove(t, i);
    }
}

/// The keyed record store of one pool.
pub struct RecordStore {
    pub entries: Vec<Record>,
}

impl RecordStore {
    /// Well-formedness: every entry sits at the address derived from its
    /// owner's identity, and no two entries share an owner.
    pub open spec fn wf(self) -> bool {
        &&& forall|i: int, j: int|
            0 <= i < j < self.entries@.len() ==> self.entries@[i].account.authority
                != self.entries@[j].account.authority
        &&& forall|i: int|
            0 <= i < self.entries@.len() ==> (#[trigger] self.entries@[i]).addr
                == spec_record_address(self.entries@[i].account.authority)
    }

    /// An open transaction record exists for this depositor.
    pub open spec fn has_record(self, authority: u64) -> bool {
        exists|i: int|
            0 <= i < self.entries@.len() && (#[trigger] self.entries@[i]).account.authority
                == authority
    }

    /// Index of this depositor's record (meaningful when `has_record`).
    pub open spec fn index_of(self, authority: u64) -> int {
        choose|i: int|
            0 <= i < self.entries@.len() && (#[trigger] self.entries@[i]).account.authority
                == authority
    }

    /// The amount this depositor has locked (meaningful when `has_record`).
    pub open spec fn amount_of(self, authority: u64) -> u64 {
        self.entries@[self.index_of(authority)].account.amount
    }

    /// Sum of all open deposits.
    pub open spec fn total(self) -> int {
        sum_amounts(self.entries@)
    }

    /// In a well-formed store an index holding a depositor's record is the
    /// unique one: a depositor never has two simultaneously open records.
    pub proof fn lemma_index_unique(self, authority: u64, i: int)
        requires
            self.wf(),
            0 <= i < self.entries@.len(),
            self.entries@[i].account.authority == authority,
        ensures
            self.has_record(authority),
            self.index_of(authority) == i,
    {
        assert(self.has_record(authority));
        let j = self.index_of(authority);
        if j < i {
            assert(self.entries@[j].account.authority != self.entries@[i].account.authority);
        } else if i < j {
            assert(self.entries@[i].account.authority != self.entries@[j].account.authority);
        }
    }

    /// A depositor's open deposit never exceeds the sum of all open
    /// deposits.
    pub proof fn lemma_amount_le_total(self, authority: u64)
        requires
            self.wf(),
            self.has_record(authority),
        ensures
            self.amount_of(authority) <= self.total(),
    {
        lemma_sum_bound(self.entries@, self.index_of(authority));
    }

    /// An empty store: no depositor has an open record.
    pub fn new() -> (s: RecordStore)
        ensures
            s.wf(),
            s.entries@.len() == 0,
            forall|a: u64| !s.has_record(a),
            s.total() == 0,
    {
        RecordStore { entries: Vec::new() }
    }

    /// Looks a depositor's open record up: `Some` with the locked amount
    /// exactly when one exists.
    pub fn get(&self, authority: u64) -> (r: Option<u64>)
        requires
            self.wf(),
        ensures
            r is Some <==> self.has_record(authority),
            r is Some ==> r == Some(self.amount_of(authority)),
    {
        let n = self.entries.len();
        let mut idx: usize = 0;
        while idx < n
            invariant
                n == self.entries@.len(),
                idx <= n,
                self.wf(),
                forall|k: int|
                    0 <= k < idx ==> (#[trigger] self.entries@[k]).account.authority != authority,
            decreases n - idx,
        {
            if self.entries[idx].account.authority == authority {
                proof {
                    self.lemma_index_unique(authority, idx as int);
                }
                return Some(self.entries[idx].account.amount);
            }
            idx += 1;
        }
        None
    }

    /// Creates a record for this depositor at the derived record address.
    /// Create-once: refused with `DuplicateRecord` exactly when the address
    /// is already occupied, that is, when the depositor already has an open
    /// record. Nothing else changes either way.
    pub fn create(&mut self, authority: u64, amount: u64) -> (r: Result<(), ErrorCode>)
        requires
            old(self).wf(),
        ensures
            final(self).wf(),
            r is Ok <==> !old(self).has_record(authority),
            r is Err ==> *final(self) == *old(self) && r == Err::<(), ErrorCode>(
                ErrorCode::DuplicateRecord,
            ),
            r is Ok ==> final(self).entries@ == old(self).entries@.push(
                (Record {
                    addr: spec_record_address(authority),
                    account: TransactionAccount { authority, amount },
                }),
            ),
            r is Ok ==> final(self).has_record(authority) && final(self).amount_of(authority)
                == amount,
            r is Ok ==> forall|a: u64|
                a != authority ==> final(self).has_record(a) == old(self).has_record(a),
            r is Ok ==> forall|a: u64|
                a != authority && old(self).has_record(a) ==> final(self).amount_of(a) == old(
                    self,
                ).amount_of(a),
            r is Ok ==> final(self).total() == old(self).total() + amount,
            r is Ok ==> final(self).entries@.len() == old(self).entries@.len() + 1,
    {
        let addr = derive_address(TRANSACTION_TAG, authority);
        let n = self.entries.len();
        let mut idx: usize = 0;
        while idx < n
            invariant
                n == self.entries@.len(),
                idx <= n,
                self.wf(),
                *self == *old(self),
                addr == spec_record_address(authority),
                forall|k: int| 0 <= k < idx ==> (#[trigger] self.entries@[k]).addr != addr,
            decreases n - idx,
        {
            if self.entries[idx].addr == addr {
                proof {
                    assert(self.entries@[idx as int].account.authority == authority);
                }
                return Err(ErrorCode::DuplicateRecord);
            }
            idx += 1;
        }
        proof {
            assert forall|i: int|
                0 <= i < self.entries@.len() implies (#[trigger] self.entries@[i]).account.authority
                != authority by {
                assert(self.entries@[i].addr == spec_record_address(
                    self.entries@[i].account.authority,
                ));
            }
        }
        let rec = Record { addr, account: TransactionAccount { authority, amount } };
        let ghost s0 = self.entries@;
        self.entries.push(rec);
        proof {
            lemma_sum_push(s0, rec);
            let n0 = s0.len() as int;
            assert(self.entries@[n0] == rec);
            assert forall|i: int, j: int|
                0 <= i < j < self.entries@.len() implies self.entries@[i].account.authority
                != self.entries@[j].account.authority by {
                if j < n0 {
                    assert(old(self).entries@[i].account.authority != old(
                        self,
                    ).entries@[j].account.authority);
                } else {
                    assert(self.entries@[i] == s0[i]);
                }
            }
            self.lemma_index_unique(authority, n0);
            assert forall|a: u64|
                a != authority implies self.has_record(a) == old(self).has_record(a) by {
                if old(self).has_record(a) {
                    let w = old(self).index_of(a);
                    assert(self.entries@[w].account.authority == a);
                }
                if self.has_record(a) {
                    let w = self.index_of(a);
                    assert(w < n0);
                    assert(s0[w].account.authority == a);
                }
            }
            assert forall|a: u64|
                a != authority && old(self).has_record(a) implies self.amount_of(a) == old(
                self,
            ).amount_of(a) by {
                let w = old(self).index_of(a);
                assert(s0[w].account.authority == a);
                old(self).lemma_index_unique(a, w);
                self.lemma_index_unique(a, w);
            }
        }
        Ok(())
    }

    /// Destroys a depositor's open record, returning the locked amount.
    /// Refused with `RecordNotFound` exactly when no record is open; other
    /// depositors' records are untouched either way.
    pub fn close(&mut self, authority: u64) -> (r: Result<u64, ErrorCode>)
        requires
            old(self).wf(),
        ensures
            final(self).wf(),
            r is Ok <==> old(self).has_record(authority),
            r is Err ==> *final(self) == *old(self) && r == Err::<u64, ErrorCode>(
                ErrorCode::RecordNotFound,
            ),
            r is Ok ==> r == Ok::<u64, ErrorCode>(old(self).amount_of(authority)),
            r is Ok ==> !final(self).has_record(authority),
            r is Ok ==> forall|a: u64|
                a != authority ==> final(self).has_record(a) == old(self).has_record(a),
            r is Ok ==> forall|a: u64|
                a != authority && old(self).has_record(a) ==> final(self).amount_of(a) == old(
                    self,
                ).amount_of(a),
            r is Ok ==> final(self).total() == old(self).total() - old(self).amount_of(authority),
            r is Ok ==> final(self).entries@.len() == old(self).entries@.len() - 1,
    {
        let n = self.entries.len();
        let mut idx: usize = 0;
        while idx < n
            invariant
                n == self.entries@.len(),
                idx <= n,
                self.wf(),
                *self == *old(self),
                forall|k: int|
                    0 <= k < idx ==> (#[trigger] self.entries@[k]).account.authority != authority,
            decreases n - idx,
        {
            if self.entries[idx].account.authority == authority {
                proof {
                    self.lemma_index_unique(authority, idx as int);
                }
                let ghost s0 = self.entries@;
                let ghost i0 = idx as int;
                let rec = self.entries.remove(idx);
                proof {
                    lemma_sum_remove(s0, i0);
                    s0.remove_ensures(i0);
                    assert(self.entries@ == s0.remove(i0));
                    assert forall|i: int, j: int|
                        0 <= i < j < self.entries@.len() implies self.entries@[i].account.authority
                        != self.entries@[j].account.authority by {
                        let iw: int = if i < i0 {
                            i
                        } else {
                            i + 1
                        };
                        let jw: int = if j < i0 {
                            j
                        } else {
                            j + 1
                        };
                        assert(self.entries@[i] == s0[iw]);
                        assert(self.entries@[j] == s0[jw]);
                        assert(s0[iw].account.authority != s0[jw].account.authority);
                    }
                    assert forall|i: int|
                        0 <= i < self.entries@.len() implies (#[trigger] self.entries@[i]).addr
                        == spec_record_address(self.entries@[i].account.authority) by {
                        let iw: int = if i < i0 {
                            i
                        } else {
                            i + 1
                        };
                        assert(self.entries@[i] == s0[iw]);
                    }
                    assert forall|k: int|
                        0 <= k < self.entries@.len() implies (
                        #[trigger] self.entries@[k]).account.authority != authority by {
                        let kw: int = if k < i0 {
                            k
                        } else {
                            k + 1
                        };
                        assert(self.entries@[k] == s0[kw]);
                        assert(s0[kw].account.authority != s0[i0].account.authority);
                    }
                    assert forall|a: u64|
                        a != authority implies self.has_record(a) == old(self).has_record(a) by {
                        if old(self).has_record(a) {
                            let w = old(self).index_of(a);
                            assert(s0[w].account.authority == a);
                            let wn: int = if w < i0 {
                                w
                            } else {
                                w - 1
                            };
                            assert(self.entries@[wn] == s0[w]);
                        }
                        if self.has_record(a) {
                            let w = self.index_of(a);
                            let ww: int = if w < i0 {
                                w
                            } else {
                                w + 1
                            };
                            assert(s0[ww] == self.entries@[w]);
                        }
                    }
                    assert forall|a: u64|
                        a != authority && old(self).has_record(a) implies self.amount_of(a) == old(
                        self,
                    ).amount_of(a) by {
                        let w = old(self).index_of(a);
                        assert(s0[w].account.authority == a);
                        old(self).lemma_index_unique(a, w);
                        let wn: int = if w < i0 {
                            w
                        } else {
                            w - 1
                        };
                        assert(self.entries@[wn] == s0[w]);
                        self.lemma_index_unique(a, wn);
                    }
                }
                return Ok(rec.account.amount);
            }
            idx += 1;
        }
        Err(ErrorCode::RecordNotFound)
    }
}

} // verus!
