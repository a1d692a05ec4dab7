//! A per-attempt view over one fetched batch of accounts.
//!
//! Every typed read of the ledger funnels through [`AccountView::get_account`]
//! or [`AccountView::account_exists`]: the key is first recorded as
//! referenced, then resolved. A key that is in the batch but has no account
//! behind it is a conclusive, fatal answer; a key that is not in the batch at
//! all is the retryable missing-account signal that makes the reader grow its
//! working set. The view also carries the flag that makes such a retry
//! unsafe once a mutation has been submitted during the attempt.

use vstd::prelude::*;

use crate::error::{OperationError, SnapshotError};
use crate::ordered_set::{distinct_seq, push_seq, OrderedSet};

verus! {

/// What one bulk read reported about one account: the raw payload if the
/// account exists, or `None` for an account observed not to exist. ("Not
/// fetched at all" is expressed by the key being absent from the batch.)
pub struct AccountRecord {
    pub data: Option<Vec<u8>>,
}

impl AccountRecord {
    /// The account was observed to exist.
    pub open spec fn spec_exists(&self) -> bool {
        self.data is Some
    }

    /// The observed payload; meaningful only when the account exists.
    pub open spec fn spec_data(&self) -> Seq<u8> {
        self.data.unwrap()@
    }
}

/// The batch as a map: defined for the keys of the batch, each bound to the
/// record fetched at the same position. Well-defined whenever the keys are
/// distinct.
pub open spec fn batch_map(keys: Seq<u64>, records: Seq<AccountRecord>) -> Map<u64, AccountRecord> {
    Map::new(
        |k: u64| keys.contains(k),
        |k: u64| records[choose|j: int| 0 <= j < keys.len() && keys[j] == k],
    )
}

/// A snapshot of one batch of accounts, alive for one task invocation.
pub struct AccountView {
    /// The keys of the batch, in the working set's order.
    batch_keys: Vec<u64>,
    /// What the bulk read returned, positionally matching `batch_keys`.
    batch_records: Vec<AccountRecord>,
    /// Every key referenced so far, in order of first reference.
    referenced: OrderedSet,
    /// Whether a mutation was submitted during this attempt.
    mutation_issued: bool,
}

impl AccountView {
    /// The batch, as a map from key to observed record.
    pub closed spec fn fetched_map(&self) -> Map<u64, AccountRecord> {
        batch_map(self.batch_keys@, self.batch_records@)
    }

    /// The keys referenced so far, in order of first reference.
    pub closed spec fn referenced_seq(&self) -> Seq<u64> {
        self.referenced@
    }

    pub closed spec fn spec_mutation_issued(&self) -> bool {
        self.mutation_issued
    }

    pub closed spec fn wf(&self) -> bool {
        &&& distinct_seq(self.batch_keys@)
        &&& self.batch_keys@.len() == self.batch_records@.len()
        &&& self.referenced.wf()
    }

    /// Build the view over one batch: `records[i]` is what the bulk read
    /// returned for `keys[i]`. Nothing is referenced yet and no mutation has
    /// been issued.
    pub fn new(keys: &OrderedSet, records: Vec<AccountRecord>) -> (v: AccountView)
        requires
            keys.wf(),
            keys@.len() == records@.len(),
        ensures
            v.wf(),
            v.referenced_seq() == Seq::<u64>::empty(),
            !v.spec_mutation_issued(),
            forall|k: u64| v.fetched_map().contains_key(k) <==> keys@.contains(k),
            forall|i: int|
                0 <= i < keys@.len() ==> v.fetched_map()[#[trigger] keys@[i]] == records@[i],
    {
        proof {
            keys.lemma_distinct();
        }
        let batch_keys = copy_values(keys.as_vec());
        let v = AccountView {
            batch_keys,
            batch_records: records,
            referenced: OrderedSet::new(),
            mutation_issued: false,
        };
        proof {
            assert forall|i: int| 0 <= i < keys@.len() implies v.fetched_map()[
                #[trigger] keys@[i]
            ] == records@[i] by {
                assert(v.batch_keys@[i] == keys@[i]);
                let j = choose|j: int|
                    0 <= j < v.batch_keys@.len() && v.batch_keys@[j] == keys@[i];
                assert(j == i);
            }
        }
        v
    }

    /// Position of `address` in the batch, if it was fetched.
    fn find(&self, address: u64) -> (r: Option<usize>)
        requires
            self.wf(),
        ensures
            self.fetched_map().contains_key(address) ==> (r matches Some(i)
                && 0 <= i < self.batch_records@.len() && self.batch_records@[i as int]
                == self.fetched_map()[address]),
            !self.fetched_map().contains_key(address) ==> r is None,
    {
        let n = self.batch_keys.len();
        let mut i: usize = 0;
        while i < n
            invariant
                self.wf(),
                n == self.batch_keys@.len(),
                i <= n,
                forall|j: int| 0 <= j < i ==> self.batch_keys@[j] != address,
            decreases n - i,
        {
            if self.batch_keys[i] == address {
                proof {
                    assert(self.batch_keys@.contains(address)) by {
                        assert(self.batch_keys@[i as int] == address);
                    }
                    let j = choose|j: int|
                        0 <= j < self.batch_keys@.len() && self.batch_keys@[j] == address;
                    assert(j == i);
                }
                return Some(i);
            }
            i = i + 1;
        }
        proof {
            assert(!self.batch_keys@.contains(address)) by {
                if self.batch_keys@.contains(address) {
                    let j = choose|j: int|
                        0 <= j < self.batch_keys@.len() && self.batch_keys@[j] == address;
                }
            }
        }
        None
    }

    /// Whether an account with the given address exists.
    ///
    /// The address is recorded as referenced whatever the answer is. An
    /// address outside the batch yields the retryable missing-account
    /// signal.
    pub fn account_exists(&mut self, address: u64) -> (r: Result<bool, SnapshotError>)
        requires
            old(self).wf(),
        ensures
            final(self).wf(),
            final(self).fetched_map() == old(self).fetched_map(),
            final(self).spec_mutation_issued() == old(self).spec_mutation_issued(),
            final(self).referenced_seq() == push_seq(old(self).referenced_seq(), address),
            old(self).fetched_map().contains_key(address) ==> (r matches Ok(b) && b == old(
                self,
            ).fetched_map()[address].spec_exists()),
            !old(self).fetched_map().contains_key(address) ==> r matches Err(
                SnapshotError::MissingAccount,
            ),
    {
        self.referenced.push(address);
        match self.find(address) {
            Some(i) => Ok(self.batch_records[i].data.is_some()),
            None => Err(SnapshotError::MissingAccount),
        }
    }

    /// The payload of the account at the given address.
    ///
    /// The address is recorded as referenced whatever the answer is. An
    /// address whose account was observed not to exist is a conclusive
    /// error; an address outside the batch yields the retryable
    /// missing-account signal.
    pub fn get_account(&mut self, address: u64) -> (r: Result<Vec<u8>, SnapshotError>)
        requires
            old(self).wf(),
        ensures
            final(self).wf(),
            final(self).fetched_map() == old(self).fetched_map(),
            final(self).spec_mutation_issued() == old(self).spec_mutation_issued(),
            final(self).referenced_seq() == push_seq(old(self).referenced_seq(), address),
            old(self).fetched_map().contains_key(address) && old(
                self,
            ).fetched_map()[address].spec_exists() ==> (r matches Ok(d) && d@ == old(
                self,
            ).fetched_map()[address].spec_data()),
            old(self).fetched_map().contains_key(address) && !old(
                self,
            ).fetched_map()[address].spec_exists() ==> (r matches Err(
                SnapshotError::OtherError(
                    OperationError::AccountDoesNotExist(a),
                ),
            ) && a == address),
            !old(self).fetched_map().contains_key(address) ==> r matches Err(
                SnapshotError::MissingAccount,
            ),
    {
        self.referenced.push(address);
        match self.find(address) {
            Some(i) => match &self.batch_records[i].data {
                Some(data) => Ok(copy_values(data)),
                None => Err(
                    SnapshotError::OtherError(OperationError::AccountDoesNotExist(address)),
                ),
            },
            None => Err(SnapshotError::MissingAccount),
        }
    }

    /// Record that a mutation is being submitted in this attempt.
    ///
    /// Callers submitting a transaction must call this before handing the
    /// transaction to the transport. From here on, a missing-account retry
    /// would submit the transaction twice, so the reader refuses it.
    pub fn note_mutation_submitted(&mut self)
        requires
            old(self).wf(),
        ensures
            final(self).wf(),
            final(self).spec_mutation_issued(),
            final(self).fetched_map() == old(self).fetched_map(),
            final(self).referenced_seq() == old(self).referenced_seq(),
    {
        self.mutation_issued = true;
    }

    pub fn mutation_issued(&self) -> (r: bool)
        ensures
            r == self.spec_mutation_issued(),
    {
        self.mutation_issued
    }

    /// The keys referenced so far, in order of first reference.
    pub fn referenced(&self) -> (r: &OrderedSet)
        requires
            self.wf(),
        ensures
            r.wf(),
            r@ == self.referenced_seq(),
    {
        &self.referenced
    }

    /// Consume the view, keeping only the referenced keys.
    pub fn into_referenced(self) -> (r: OrderedSet)
        requires
            self.wf(),
        ensures
            r.wf(),
            r@ == self.referenced_seq(),
    {
        self.referenced
    }
}

/// A fresh vector with the same elements.
fn copy_values<T: Copy>(values: &Vec<T>) -> (r: Vec<T>)
    ensures
        r@ == values@,
{
    let n = values.len();
    let mut out: Vec<T> = Vec::new();
    let mut i: usize = 0;
    while i < n
        invariant
            n == values@.len(),
            i <= n,
            out@ == values@.take(i as int),
        decreases n - i,
    {
        out.push(values[i]);
        proof {
            assert(values@.take(i + 1) =~= values@.take(i as int).push(values@[i as int]));
        }
        i = i + 1;
    }
    proof {
        assert(values@.take(n as int) =~= values@);
    }
    out
}

} // verus!
