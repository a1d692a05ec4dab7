//! Consistent reads over a ledger that only offers batched point reads.
//!
//! The ledger cannot read several accounts at one point in time unless they
//! fit into a single bulk call. The reader therefore keeps a persistent
//! working set of keys, reads it in as few chunks as the server's batch
//! limit allows, and hands the result to a caller-supplied task as an
//! [`AccountView`]. A task that touches a key outside the batch signals
//! missing-account; the reader then extends the working set with every key
//! the task referenced and tries again. After a success the working set
//! shrinks to exactly the referenced keys, so stale keys fall away.
//!
//! Retrying can repeat the task's side effects. Submitting a transaction is
//! detected (see [`AccountView::note_mutation_submitted`]) and a retry after
//! it is refused as [`OperationError::RetryAfterMutation`]; other side
//! effects are the task's own responsibility.
//!
//! The two outside parties — the transport and the task — promise nothing,
//! so no contract here can say when a call succeeds. What the reader itself
//! decides is contracted instead: [`ConsistentReader::resolve_chunk`] fixes
//! what every possible answer to a bulk read does to the fetch, and
//! [`resolve_attempt`] fixes what every possible task result does to the
//! operation. The fetch and retry loops only carry out those decisions.
//!
//! Convergence is not guaranteed: if an outside actor rewires the account
//! graph faster than the bot polls, the retry loop may chase it forever.
//! That limitation is accepted; every single fetch, in contrast, provably
//! terminates, because each failed chunking strictly lowers the learned
//! batch bound.

use vstd::prelude::*;

use crate::account_view::{AccountRecord, AccountView};
use crate::error::{OperationError, SnapshotError};
use crate::ordered_set::{push_seq, union_seq, OrderedSet};

verus! {

/// What one bulk read of a chunk of keys reported.
pub enum ReadOutcome {
    /// One record per requested key, in request order.
    Accounts(Vec<AccountRecord>),
    /// The server refused the chunk: too many keys in one call.
    TooManyKeys,
    /// The read failed for any other reason.
    TransportFailed,
}

/// The bulk read the ledger offers: many accounts in one call.
///
/// The binary implements this over its RPC transport; tests implement it
/// over an in-memory table. No behaviour is assumed of an implementation:
/// the reader handles every outcome, whatever comes back.
pub trait BulkReader {
    /// Read the given keys in one call.
    fn read_many(&mut self, keys: &Vec<u64>) -> ReadOutcome;
}

/// A task to run against a consistent view of the working set.
///
/// The task reads accounts only through the view's methods, which record
/// every reference and preserve the view's well-formedness — the one thing
/// promised here. Nothing else is assumed about an implementation: the
/// reader handles success, missing-account and failure alike.
pub trait ViewTask {
    type Output;

    /// One attempt of the task against one snapshot view.
    fn run(&mut self, view: &mut AccountView) -> (r: Result<Self::Output, SnapshotError>)
        requires
            old(view).wf(),
        ensures
            final(view).wf(),
    ;
}

/// The key whose absence made an attempt fail is in the working set of the
/// retry: the failing read pushed it onto the referenced keys, and the new
/// working set is the union of the referenced keys with the old set.
pub proof fn lemma_retry_covers_missing_key(referenced: Seq<u64>, working: Seq<u64>, k: u64)
    ensures
        union_seq(push_seq(referenced, k), working).contains(k),
{
    let pushed = push_seq(referenced, k);
    assert(pushed.contains(k)) by {
        if !referenced.contains(k) {
            assert(pushed[referenced.len() as int] == k);
        }
    }
    crate::ordered_set::lemma_union_keeps_all(pushed, working, k);
}

/// The chunk count the search settles on: counts up from `k` until the
/// equal chunk size `len / k` fits the bound, or until there are as many
/// chunks as keys (a chunk size of one always fits, since the bound is at
/// least one).
pub open spec fn spec_chunk_count_from(len: int, bound: int, k: int) -> int
    decreases len - k,
{
    if k >= len || len / k <= bound {
        k
    } else {
        spec_chunk_count_from(len, bound, k + 1)
    }
}

/// The chunk size used for `len` keys under `bound`: the fewest equal-size
/// chunks whose size fits the bound, trying chunk counts 1, 2, 3, …
pub open spec fn spec_chunk_size(len: int, bound: int) -> int {
    len / spec_chunk_count_from(len, bound, 1)
}

/// The chunk count the search settles on lies between the count it started
/// from and the number of keys.
proof fn lemma_chunk_count_bounds(len: int, bound: int, k: int)
    requires
        bound >= 1,
        1 <= k <= len,
    ensures
        k <= spec_chunk_count_from(len, bound, k) <= len,
    decreases len - k,
{
    if !(k >= len || len / k <= bound) {
        lemma_chunk_count_bounds(len, bound, k + 1);
    }
}

/// The whole set goes out as one chunk exactly when it fits the bound.
proof fn lemma_chunk_size_full(len: int, bound: int)
    requires
        len >= 1,
        bound >= 1,
    ensures
        spec_chunk_size(len, bound) == len <==> len <= bound,
{
    if len <= bound {
        assert(spec_chunk_count_from(len, bound, 1) == 1);
        assert(len / 1int == len) by (nonlinear_arith);
    } else {
        // The refused first try moves the search to two or more chunks,
        // and dividing by two or more makes the chunks strictly smaller.
        assert(len / 1int == len) by (nonlinear_arith);
        assert(len >= 2);
        let count = spec_chunk_count_from(len, bound, 1);
        assert(count == spec_chunk_count_from(len, bound, 2));
        lemma_chunk_count_bounds(len, bound, 2);
        vstd::arithmetic::div_mod::lemma_div_is_ordered_by_denominator(len, 2, count);
        vstd::arithmetic::div_mod::lemma_div_decreases(len, 2);
    }
}

/// The chunk size for reading `len` keys under the learned bound: `len`
/// divided by the smallest chunk count whose equal share fits the bound.
pub fn chunk_size(len: usize, bound: usize) -> (s: usize)
    requires
        1 <= len,
        1 <= bound,
    ensures
        1 <= s <= bound,
        s == spec_chunk_size(len as int, bound as int),
{
    let mut k: usize = 1;
    loop
        invariant
            1 <= k <= len,
            1 <= bound,
            spec_chunk_count_from(len as int, bound as int, 1) == spec_chunk_count_from(
                len as int,
                bound as int,
                k as int,
            ),
        decreases len - k,
    {
        let s = len / k;
        if s <= bound {
            proof {
                assert(len as int / k as int >= 1) by (nonlinear_arith)
                    requires
                        1 <= k <= len,
                ;
            }
            return s;
        }
        if k >= len {
            proof {
                assert(len as int / len as int == 1) by (nonlinear_arith)
                    requires
                        1 <= len,
                ;
            }
            return s;
        }
        k = k + 1;
    }
}

/// What one chunk's outcome means for the fetch in progress.
pub enum ChunkStep {
    /// The chunk was served: take its records and move to the next chunk.
    Extend(Vec<AccountRecord>),
    /// The chunk was refused as too large; the bound has been lowered, the
    /// chunking starts over from the beginning.
    Restart,
    /// The fetch is over with this error.
    Abort(OperationError),
}

/// What the result of one task attempt means for the operation.
pub enum AttemptOutcome<T> {
    /// The attempt succeeded: return the output; the new working set holds
    /// exactly the keys the task referenced.
    Complete(T, OrderedSet),
    /// The task referenced a key outside the snapshot: try again over the
    /// extended working set.
    Retry(OrderedSet),
    /// The operation is over with this error.
    Abort(OperationError),
}

/// Decide the fate of one task attempt. This is the whole retry policy of
/// the reader:
///
/// * success returns the output, and the next working set is exactly the
///   referenced keys, pruning everything the task no longer needs;
/// * the task's own error is handed through unchanged;
/// * a missing account after a submitted mutation is refused as
///   [`OperationError::RetryAfterMutation`] — retrying would submit the
///   mutation a second time;
/// * a missing account otherwise asks for a retry over the union of the
///   referenced keys with the old working set, referenced keys first —
///   unless that union adds no key, in which case a retry would see the
///   very same snapshot again and the report is refused as
///   [`OperationError::StalledRetry`].
pub fn resolve_attempt<T>(
    view: AccountView,
    result: Result<T, SnapshotError>,
    working: &OrderedSet,
) -> (d: AttemptOutcome<T>)
    requires
        view.wf(),
        working.wf(),
    ensures
        result matches Ok(output) ==> (d matches AttemptOutcome::Complete(out, next) && out
            == output && next.wf() && next@ == view.referenced_seq()),
        result matches Err(SnapshotError::OtherError(e)) ==> (d matches AttemptOutcome::Abort(e2)
            && e2 == e),
        result matches Err(SnapshotError::MissingAccount) ==> ((view.spec_mutation_issued() ==> (d
            matches AttemptOutcome::Abort(e) && e == OperationError::RetryAfterMutation)) && (
        !view.spec_mutation_issued() && union_seq(view.referenced_seq(), working@).len()
            <= working@.len() ==> (d matches AttemptOutcome::Abort(e) && e
            == OperationError::StalledRetry)) && (!view.spec_mutation_issued() && union_seq(
            view.referenced_seq(),
            working@,
        ).len() > working@.len() ==> (d matches AttemptOutcome::Retry(next) && next.wf() && next@
            == union_seq(view.referenced_seq(), working@)))),
{
    match result {
        Ok(output) => AttemptOutcome::Complete(output, view.into_referenced()),
        Err(SnapshotError::OtherError(e)) => AttemptOutcome::Abort(e),
        Err(SnapshotError::MissingAccount) => {
            if view.mutation_issued() {
                return AttemptOutcome::Abort(OperationError::RetryAfterMutation);
            }
            let mut next = view.into_referenced();
            next.union_with(working);
            if next.len() <= working.len() {
                AttemptOutcome::Abort(OperationError::StalledRetry)
            } else {
                AttemptOutcome::Retry(next)
            }
        },
    }
}

/// Reads a working set of accounts in as few bulk calls as the server's
/// batch limit allows, and drives a task over the resulting views until the
/// task completes without a missing account.
pub struct ConsistentReader {
    /// The keys the reader currently believes the task needs, in first
    /// reference order. Grows during an operation; pruned after a success.
    working_set: OrderedSet,
    /// Learned upper bound on how many accounts one bulk call may ask for.
    /// Starts at the largest possible value and is lowered every time the
    /// server refuses a chunk.
    max_batch: usize,
    /// How many successful fetches needed more than one chunk, and so may
    /// have produced a torn view. Callers should surface this: tearing is
    /// expected to be rare, and a growing count means the server's batch
    /// limit is too small for the working set.
    torn_fetches: u64,
}

impl ConsistentReader {
    /// The persistent working set, in first-reference order.
    pub closed spec fn working_set_seq(&self) -> Seq<u64> {
        self.working_set@
    }

    /// The learned batch bound.
    pub closed spec fn spec_max_batch(&self) -> int {
        self.max_batch as int
    }

    pub closed spec fn spec_torn_fetches(&self) -> int {
        self.torn_fetches as int
    }

    pub closed spec fn wf(&self) -> bool {
        &&& self.working_set.wf()
        &&& self.max_batch >= 1
    }

    /// A fresh reader: empty working set, no batch bound learned yet.
    pub fn new() -> (r: ConsistentReader)
        ensures
            r.wf(),
            r.working_set_seq() == Seq::<u64>::empty(),
            r.spec_max_batch() == usize::MAX,
            r.spec_torn_fetches() == 0,
    {
        ConsistentReader {
            working_set: OrderedSet::new(),
            max_batch: usize::MAX,
            torn_fetches: 0,
        }
    }

    pub fn working_set(&self) -> (r: &OrderedSet)
        requires
            self.wf(),
        ensures
            r.wf(),
            r@ == self.working_set_seq(),
    {
        &self.working_set
    }

    pub fn torn_fetches(&self) -> (r: u64)
        ensures
            r == self.spec_torn_fetches(),
    {
        self.torn_fetches
    }

    /// Learn from a refused chunk: every later chunking, in this fetch and
    /// in all future ones, uses a strictly smaller bound.
    pub fn lower_batch_bound(&mut self, refused_chunk_len: usize)
        requires
            old(self).wf(),
            2 <= refused_chunk_len <= old(self).spec_max_batch(),
        ensures
            final(self).wf(),
            final(self).spec_max_batch() == refused_chunk_len - 1,
            final(self).spec_max_batch() < old(self).spec_max_batch(),
            final(self).working_set_seq() == old(self).working_set_seq(),
            final(self).spec_torn_fetches() == old(self).spec_torn_fetches(),
    {
        self.max_batch = refused_chunk_len - 1;
    }

    /// Decide what one chunk's outcome does to the fetch. This is the whole
    /// read policy:
    ///
    /// * a served chunk of the right length extends the result; one of the
    ///   wrong length aborts as [`OperationError::MalformedResponse`];
    /// * a refusal lowers the learned bound to one below the refused length
    ///   and restarts the chunking — unless even a single account was
    ///   refused, which aborts as
    ///   [`OperationError::SingleAccountBatchRefused`], since no valid
    ///   chunking exists;
    /// * any other failure aborts as [`OperationError::Transport`].
    ///
    /// Only a refusal touches the learned bound.
    pub fn resolve_chunk(&mut self, outcome: ReadOutcome, chunk_len: usize) -> (s: ChunkStep)
        requires
            old(self).wf(),
            1 <= chunk_len <= old(self).spec_max_batch(),
        ensures
            final(self).wf(),
            final(self).working_set_seq() == old(self).working_set_seq(),
            final(self).spec_torn_fetches() == old(self).spec_torn_fetches(),
            final(self).spec_max_batch() <= old(self).spec_max_batch(),
            outcome matches ReadOutcome::Accounts(records) ==> (final(self).spec_max_batch()
                == old(self).spec_max_batch() && (records@.len() == chunk_len ==> (s matches
                ChunkStep::Extend(accepted) && accepted@ == records@)) && (records@.len()
                != chunk_len ==> (s matches ChunkStep::Abort(e) && e
                == OperationError::MalformedResponse))),
            outcome matches ReadOutcome::TooManyKeys ==> ((chunk_len <= 1
                ==> (final(self).spec_max_batch() == old(self).spec_max_batch()
                && (s matches ChunkStep::Abort(e) && e == OperationError::SingleAccountBatchRefused)))
                && (chunk_len >= 2 ==> ((s matches ChunkStep::Restart)
                && final(self).spec_max_batch() == chunk_len - 1
                && final(self).spec_max_batch() < old(self).spec_max_batch()))),
            outcome matches ReadOutcome::TransportFailed ==> (final(self).spec_max_batch()
                == old(self).spec_max_batch()
                && (s matches ChunkStep::Abort(e) && e == OperationError::Transport)),
    {
        match outcome {
            ReadOutcome::Accounts(records) => {
                if records.len() != chunk_len {
                    ChunkStep::Abort(OperationError::MalformedResponse)
                } else {
                    ChunkStep::Extend(records)
                }
            },
            ReadOutcome::TooManyKeys => {
                if chunk_len <= 1 {
                    // Even a single account is refused; no valid chunking
                    // exists.
                    ChunkStep::Abort(OperationError::SingleAccountBatchRefused)
                } else {
                    self.lower_batch_bound(chunk_len);
                    ChunkStep::Restart
                }
            },
            ReadOutcome::TransportFailed => ChunkStep::Abort(OperationError::Transport),
        }
    }

    /// Read the whole working set, in chunks the server accepts.
    ///
    /// An empty working set is answered without any bulk call. Otherwise
    /// the set is split into equal chunks no larger than the learned bound;
    /// what each answer does to the fetch is fixed by
    /// [`ConsistentReader::resolve_chunk`], and since every refusal
    /// strictly lowers the bound, the fetch provably terminates. On success
    /// there is exactly one record per working-set key, in working-set
    /// order as far as the transport honoured it, and the torn-fetch count
    /// grew exactly when the set did not fit one chunk of the final bound.
    pub fn fetch_batch<R: BulkReader>(&mut self, transport: &mut R) -> (r: Result<
        Vec<AccountRecord>,
        OperationError,
    >)
        requires
            old(self).wf(),
        ensures
            final(self).wf(),
            final(self).working_set_seq() == old(self).working_set_seq(),
            final(self).spec_max_batch() <= old(self).spec_max_batch(),
            old(self).spec_torn_fetches() <= final(self).spec_torn_fetches() <= old(
                self,
            ).spec_torn_fetches() + 1,
            old(self).working_set_seq().len() == 0 ==> (final(self).spec_max_batch()
                == old(self).spec_max_batch() && (r matches Ok(records) && records@.len() == 0)),
            r matches Ok(records) ==> records@.len() == old(self).working_set_seq().len(),
            (r is Ok && old(self).spec_torn_fetches() < u64::MAX)
                ==> (final(self).spec_torn_fetches() == old(self).spec_torn_fetches()
                <==> old(self).working_set_seq().len() <= final(self).spec_max_batch()),
            r is Err ==> final(self).spec_torn_fetches() == old(self).spec_torn_fetches(),
    {
        let total = self.working_set.len();
        let mut records: Vec<AccountRecord> = Vec::new();
        if total == 0 {
            return Ok(records);
        }

        let mut size = chunk_size(total, self.max_batch);
        let mut pos: usize = 0;
        loop
            invariant
                self.wf(),
                self.working_set_seq() == old(self).working_set_seq(),
                self.spec_max_batch() <= old(self).spec_max_batch(),
                self.spec_torn_fetches() == old(self).spec_torn_fetches(),
                total == self.working_set_seq().len(),
                1 <= total,
                1 <= size <= self.spec_max_batch(),
                size == spec_chunk_size(total as int, self.spec_max_batch()),
                pos <= total,
                records@.len() == pos,
            decreases self.max_batch, total - pos,
        {
            if pos == total {
                proof {
                    lemma_chunk_size_full(total as int, self.spec_max_batch());
                }
                if size < total {
                    // More than one chunk was needed: the view may be torn.
                    if self.torn_fetches < u64::MAX {
                        self.torn_fetches = self.torn_fetches + 1;
                    }
                }
                return Ok(records);
            }

            let remaining = total - pos;
            let this_len = if size < remaining {
                size
            } else {
                remaining
            };
            let mut chunk: Vec<u64> = Vec::new();
            let mut j = pos;
            while j < pos + this_len
                invariant
                    self.wf(),
                    total == self.working_set_seq().len(),
                    pos + this_len <= total,
                    pos <= j <= pos + this_len,
                    chunk@ == self.working_set_seq().subrange(pos as int, j as int),
                decreases pos + this_len - j,
            {
                chunk.push(self.working_set.get(j));
                proof {
                    assert(self.working_set_seq().subrange(pos as int, j + 1)
                        =~= self.working_set_seq().subrange(pos as int, j as int).push(
                        self.working_set_seq()[j as int],
                    ));
                }
                j = j + 1;
            }

            let outcome = transport.read_many(&chunk);
            match self.resolve_chunk(outcome, this_len) {
                ChunkStep::Extend(mut batch) => {
                    records.append(&mut batch);
                    pos = pos + this_len;
                },
                ChunkStep::Restart => {
                    size = chunk_size(total, self.max_batch);
                    pos = 0;
                    records = Vec::new();
                },
                ChunkStep::Abort(e) => {
                    return Err(e);
                },
            }
        }
    }

    /// Run `task` against a consistent view of the working set.
    ///
    /// Each attempt fetches the working set, builds a view over it (see
    /// [`AccountView::new`] for what the task receives), runs the task, and
    /// hands the result to [`resolve_attempt`], whose contract fixes the
    /// decision for every possible task result: return the output with the
    /// working set pruned to the referenced keys, hand a task error
    /// through, refuse a retry after a mutation, or retry over the union
    /// of the referenced keys with the old set, referenced keys first —
    /// keys that earlier snapshots proved necessary stay in the set, and
    /// co-referenced keys stay adjacent for future chunking.
    ///
    /// A task whose missing-account signal is truthful always references a
    /// key from outside the working set, so every retry strictly grows the
    /// set and the loop can only run for as long as the set keeps growing.
    /// A missing-account signal that names no new key is refused as
    /// [`OperationError::StalledRetry`]: the snapshot already covered
    /// everything the task referenced, so retrying it could change nothing.
    pub fn with_view<R: BulkReader, T: ViewTask>(&mut self, transport: &mut R, task: &mut T) -> (r:
        Result<T::Output, OperationError>)
        requires
            old(self).wf(),
        ensures
            final(self).wf(),
            final(self).spec_max_batch() <= old(self).spec_max_batch(),
            final(self).spec_torn_fetches() >= old(self).spec_torn_fetches(),
    {
        let mut ws_len = self.working_set.len();
        loop
            invariant
                self.wf(),
                self.spec_max_batch() <= old(self).spec_max_batch(),
                self.spec_torn_fetches() >= old(self).spec_torn_fetches(),
                ws_len == self.working_set_seq().len(),
            decreases usize::MAX - ws_len,
        {
            let records = match self.fetch_batch(transport) {
                Ok(records) => records,
                Err(e) => {
                    return Err(e);
                },
            };
            let mut view = AccountView::new(&self.working_set, records);
            let result = task.run(&mut view);
            match resolve_attempt(view, result, &self.working_set) {
                AttemptOutcome::Complete(output, next) => {
                    self.working_set = next;
                    return Ok(output);
                },
                AttemptOutcome::Retry(next) => {
                    let next_len = next.len();
                    self.working_set = next;
                    ws_len = next_len;
                },
                AttemptOutcome::Abort(e) => {
                    return Err(e);
                },
            }
        }
    }
}

} // verus!
