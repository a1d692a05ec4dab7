//! Errors of the snapshot protocol.

use vstd::prelude::*;

verus! {

/// A failure that aborts the current operation. These are the errors that
/// the maintenance loop counts, logs, and survives.
#[derive(Clone, PartialEq, Eq, Debug)]
pub enum OperationError {
    /// The account was in the batch, but does not exist on the ledger. That
    /// observation is conclusive, so a retry would not help.
    AccountDoesNotExist(u64),
    /// A bulk read failed for a reason other than batch size.
    Transport,
    /// A bulk read answered with fewer or more records than keys asked for.
    MalformedResponse,
    /// The ledger refused even a single-account batch as too large, so no
    /// valid chunking exists.
    SingleAccountBatchRefused,
    /// A missing account surfaced after a mutation had already been
    /// submitted in the same attempt. Retrying would submit the mutation a
    /// second time: this signals a logic defect in the task (a read ordered
    /// after its own write) and must end the process, not the iteration.
    RetryAfterMutation,
    /// The task reported a missing account although every key it referenced
    /// was in the snapshot. Retrying with the same snapshot could not make
    /// progress, so the operation aborts instead of looping.
    StalledRetry,
    /// A failure reported by the caller-supplied task.
    Other(String),
}

/// What a task's read of the snapshot can signal.
#[derive(Clone, PartialEq, Eq, Debug)]
pub enum SnapshotError {
    /// The task referenced an account that was not in the snapshot. The
    /// reader retries with a working set extended by every referenced key.
    MissingAccount,
    /// An error unrelated to account lookup; the operation aborts and the
    /// error is handed through.
    OtherError(OperationError),
}

} // verus!
