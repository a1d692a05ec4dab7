use solido_maintainer::account_view::{AccountRecord, AccountView};
use solido_maintainer::error::{OperationError, SnapshotError};
use solido_maintainer::ordered_set::OrderedSet;
use solido_maintainer::reader::{BulkReader, ConsistentReader, ReadOutcome, ViewTask};

#[test]
fn ordered_set_push_is_idempotent() {
    let mut set = OrderedSet::new();
    set.push(1);
    set.push(2);
    set.push(1);
    assert_eq!(set.as_vec(), &vec![1, 2]);
    set.push(1);
    assert_eq!(set.as_vec(), &vec![1, 2]);
}

#[test]
fn ordered_set_union_keeps_order_and_appends_newcomers_in_argument_order() {
    let mut left = OrderedSet::new();
    for k in [1u64, 2, 3] {
        left.push(k);
    }
    let mut right = OrderedSet::new();
    for k in [3u64, 4, 1, 5] {
        right.push(k);
    }
    left.union_with(&right);
    assert_eq!(left.as_vec(), &vec![1, 2, 3, 4, 5]);
}

#[test]
fn view_reads_funnel_through_one_primitive() {
    let mut keys = OrderedSet::new();
    keys.push(1);
    keys.push(2);
    let records = vec![
        AccountRecord { data: Some(vec![10, 20]) },
        AccountRecord { data: None },
    ];
    let mut view = AccountView::new(&keys, records);

    // In the batch and populated: the payload.
    assert_eq!(view.get_account(1), Ok(vec![10, 20]));
    assert_eq!(view.account_exists(1), Ok(true));
    // In the batch, observed not to exist: conclusive.
    assert_eq!(view.account_exists(2), Ok(false));
    assert_eq!(
        view.get_account(2),
        Err(SnapshotError::OtherError(OperationError::AccountDoesNotExist(2)))
    );
    // Not in the batch: the retryable missing-account signal.
    assert_eq!(view.account_exists(3), Err(SnapshotError::MissingAccount));

    // Every read was recorded, in order of first reference, without
    // duplicates; no mutation was issued.
    assert!(!view.mutation_issued());
    view.note_mutation_submitted();
    assert!(view.mutation_issued());
    assert_eq!(view.into_referenced().as_vec(), &vec![1, 2, 3]);
}

/// A ledger held in memory: a table of accounts and a batch-size limit, as
/// a real RPC node would enforce. Records every bulk call it serves.
struct TableReader {
    accounts: Vec<(u64, Option<Vec<u8>>)>,
    limit: usize,
    calls: Vec<Vec<u64>>,
}

impl TableReader {
    fn new(accounts: Vec<(u64, Option<Vec<u8>>)>, limit: usize) -> TableReader {
        TableReader { accounts, limit, calls: Vec::new() }
    }
}

impl BulkReader for TableReader {
    fn read_many(&mut self, keys: &Vec<u64>) -> ReadOutcome {
        self.calls.push(keys.clone());
        if keys.len() > self.limit {
            return ReadOutcome::TooManyKeys;
        }
        let mut records = Vec::new();
        for key in keys {
            let data = self
                .accounts
                .iter()
                .find(|(k, _)| k == key)
                .and_then(|(_, d)| d.clone());
            records.push(AccountRecord { data });
        }
        ReadOutcome::Accounts(records)
    }
}

/// A task that reads a fixed list of accounts and returns how many bytes it
/// saw in total.
struct LoadTask {
    wants: Vec<u64>,
    attempts: usize,
}

impl LoadTask {
    fn new(wants: Vec<u64>) -> LoadTask {
        LoadTask { wants, attempts: 0 }
    }
}

impl ViewTask for LoadTask {
    type Output = usize;

    fn run(&mut self, view: &mut AccountView) -> Result<usize, SnapshotError> {
        self.attempts += 1;
        let mut bytes = 0;
        for key in self.wants.clone() {
            bytes += view.get_account(key)?.len();
        }
        Ok(bytes)
    }
}

#[test]
fn task_outside_initial_set_triggers_exactly_one_retry() {
    let mut transport = TableReader::new(vec![(7, Some(vec![1, 2, 3]))], usize::MAX);
    let mut reader = ConsistentReader::new();

    // The working set starts empty: the first attempt sees an empty batch
    // (served without a bulk call), references key 7, and reports it
    // missing; the one retry fetches it and succeeds.
    let mut task = LoadTask::new(vec![7]);
    let got = reader.with_view(&mut transport, &mut task).unwrap();
    assert_eq!(got, 3);
    assert_eq!(task.attempts, 2);
    assert_eq!(transport.calls, vec![vec![7]]);
    assert_eq!(reader.working_set().as_vec(), &vec![7]);
}

#[test]
fn task_with_a_warm_working_set_completes_in_one_batch() {
    let mut transport = TableReader::new(vec![(7, Some(vec![1, 2, 3]))], usize::MAX);
    let mut reader = ConsistentReader::new();
    let mut warmup = LoadTask::new(vec![7]);
    reader.with_view(&mut transport, &mut warmup).unwrap();

    // The key is now in the working set: one attempt, one bulk call.
    let mut task = LoadTask::new(vec![7]);
    let got = reader.with_view(&mut transport, &mut task).unwrap();
    assert_eq!(got, 3);
    assert_eq!(task.attempts, 1);
    assert_eq!(transport.calls.len(), 2);
}

#[test]
fn working_set_shrinks_to_what_the_task_referenced() {
    let mut transport = TableReader::new(
        vec![(1, Some(vec![1])), (2, Some(vec![2])), (3, Some(vec![3]))],
        usize::MAX,
    );
    let mut reader = ConsistentReader::new();
    let mut warmup = LoadTask::new(vec![1, 2, 3]);
    reader.with_view(&mut transport, &mut warmup).unwrap();
    assert_eq!(reader.working_set().as_vec(), &vec![1, 2, 3]);

    // A task that needs less leaves only what it referenced behind.
    let mut narrow = LoadTask::new(vec![2]);
    reader.with_view(&mut transport, &mut narrow).unwrap();
    assert_eq!(reader.working_set().as_vec(), &vec![2]);
}

#[test]
fn a_key_appearing_mid_operation_keeps_the_old_set_after_the_fresh_references() {
    let mut transport = TableReader::new(
        vec![(1, Some(vec![1])), (2, Some(vec![2])), (3, Some(vec![3]))],
        usize::MAX,
    );
    let mut reader = ConsistentReader::new();
    let mut warmup = LoadTask::new(vec![1, 2]);
    reader.with_view(&mut transport, &mut warmup).unwrap();
    assert_eq!(reader.working_set().as_vec(), &vec![1, 2]);

    // A new account shows up between keys 1 and 2: the retry's working set
    // starts with what this attempt referenced, in reference order, and
    // keeps the keys of earlier snapshots at the end.
    let mut task = LoadTask::new(vec![1, 3, 2]);
    reader.with_view(&mut transport, &mut task).unwrap();
    assert_eq!(task.attempts, 2);
    assert_eq!(reader.working_set().as_vec(), &vec![1, 3, 2]);
}

#[test]
fn an_account_that_does_not_exist_is_a_conclusive_error() {
    // Key 9 is answered by the ledger, but no account lives there.
    let mut transport = TableReader::new(vec![(9, None)], usize::MAX);
    let mut reader = ConsistentReader::new();
    let mut task = LoadTask::new(vec![9]);
    let result = reader.with_view(&mut transport, &mut task);
    assert_eq!(result, Err(OperationError::AccountDoesNotExist(9)));
}

/// A task that checks existence instead of reading payloads.
struct ExistsTask {
    key: u64,
    saw: Option<bool>,
}

impl ViewTask for ExistsTask {
    type Output = bool;

    fn run(&mut self, view: &mut AccountView) -> Result<bool, SnapshotError> {
        let exists = view.account_exists(self.key)?;
        self.saw = Some(exists);
        Ok(exists)
    }
}

#[test]
fn account_exists_distinguishes_absent_from_missing() {
    let mut transport = TableReader::new(vec![(9, None)], usize::MAX);
    let mut reader = ConsistentReader::new();
    let mut task = ExistsTask { key: 9, saw: None };
    // One retry to pull key 9 into the working set, then a conclusive "does
    // not exist" answer, which is a plain `false`, not an error.
    let result = reader.with_view(&mut transport, &mut task);
    assert_eq!(result, Ok(false));
    assert_eq!(task.saw, Some(false));
}

/// A task that submits a mutation and then reads an account it had not
/// referenced before: the logic defect the reader must refuse to retry.
struct ReadAfterWriteTask {}

impl ViewTask for ReadAfterWriteTask {
    type Output = ();

    fn run(&mut self, view: &mut AccountView) -> Result<(), SnapshotError> {
        view.note_mutation_submitted();
        view.get_account(42)?;
        Ok(())
    }
}

#[test]
fn missing_account_after_a_mutation_is_fatal() {
    let mut transport = TableReader::new(vec![(42, Some(vec![1]))], usize::MAX);
    let mut reader = ConsistentReader::new();
    let mut task = ReadAfterWriteTask {};
    let result = reader.with_view(&mut transport, &mut task);
    assert_eq!(result, Err(OperationError::RetryAfterMutation));
}

/// A task that cries missing-account without referencing anything: the
/// reader must refuse to spin on it.
struct CryWolfTask {}

impl ViewTask for CryWolfTask {
    type Output = ();

    fn run(&mut self, _view: &mut AccountView) -> Result<(), SnapshotError> {
        Err(SnapshotError::MissingAccount)
    }
}

#[test]
fn a_missing_account_report_without_a_new_key_stalls() {
    let mut transport = TableReader::new(Vec::new(), usize::MAX);
    let mut reader = ConsistentReader::new();
    let mut task = CryWolfTask {};
    let result = reader.with_view(&mut transport, &mut task);
    assert_eq!(result, Err(OperationError::StalledRetry));
}

/// A task that fails outright with its own error.
struct FailTask {}

impl ViewTask for FailTask {
    type Output = ();

    fn run(&mut self, _view: &mut AccountView) -> Result<(), SnapshotError> {
        Err(SnapshotError::OtherError(OperationError::Other(
            "deliberately broken".to_string(),
        )))
    }
}

#[test]
fn task_errors_pass_through() {
    let mut transport = TableReader::new(Vec::new(), usize::MAX);
    let mut reader = ConsistentReader::new();
    let mut task = FailTask {};
    let result = reader.with_view(&mut transport, &mut task);
    assert_eq!(
        result,
        Err(OperationError::Other("deliberately broken".to_string()))
    );
}

#[test]
fn refused_chunks_lower_the_bound_until_the_read_succeeds() {
    let accounts: Vec<(u64, Option<Vec<u8>>)> =
        (0..5u64).map(|k| (k, Some(vec![k as u8]))).collect();
    let mut transport = TableReader::new(accounts, 2);
    let mut reader = ConsistentReader::new();

    // Grow the working set to all five keys, one retry per key.
    let mut task = LoadTask::new(vec![0, 1, 2, 3, 4]);
    let got = reader.with_view(&mut transport, &mut task).unwrap();
    assert_eq!(got, 5);
    assert_eq!(reader.working_set().as_vec(), &vec![0, 1, 2, 3, 4]);

    // The server's limit of 2 was learned along the way: some call was
    // refused, and after the first refusal every chunking, in the same
    // fetch and in all later ones, stayed strictly below the refused size.
    let first_refused = transport
        .calls
        .iter()
        .position(|c| c.len() > 2)
        .expect("some call must have been refused");
    let refused_len = transport.calls[first_refused].len();
    for call in &transport.calls[first_refused + 1..] {
        assert!(call.len() < refused_len);
    }
    assert!(reader.torn_fetches() > 0);

    // A fresh call keeps the learned bound: nothing is refused any more.
    let calls_before = transport.calls.len();
    let mut again = LoadTask::new(vec![0, 1, 2, 3, 4]);
    reader.with_view(&mut transport, &mut again).unwrap();
    assert_eq!(again.attempts, 1);
    for call in &transport.calls[calls_before..] {
        assert!(call.len() <= 2);
    }
}

/// A transport that is down: every read fails outright.
struct DownTransport {}

impl BulkReader for DownTransport {
    fn read_many(&mut self, _keys: &Vec<u64>) -> ReadOutcome {
        ReadOutcome::TransportFailed
    }
}

#[test]
fn a_failed_read_aborts_as_a_transport_error() {
    let mut transport = DownTransport {};
    let mut reader = ConsistentReader::new();
    // Pull key 1 into the working set first; the empty first attempt needs
    // no bulk call, so the transport only fails on the retry's fetch.
    let mut task = LoadTask::new(vec![1]);
    let result = reader.with_view(&mut transport, &mut task);
    assert_eq!(result, Err(OperationError::Transport));
}

/// A transport that answers with the wrong number of records.
struct ShortTransport {}

impl BulkReader for ShortTransport {
    fn read_many(&mut self, _keys: &Vec<u64>) -> ReadOutcome {
        ReadOutcome::Accounts(Vec::new())
    }
}

#[test]
fn a_response_of_the_wrong_length_is_malformed() {
    let mut transport = ShortTransport {};
    let mut reader = ConsistentReader::new();
    let mut task = LoadTask::new(vec![1]);
    let result = reader.with_view(&mut transport, &mut task);
    assert_eq!(result, Err(OperationError::MalformedResponse));
}

#[test]
fn a_server_that_refuses_single_reads_is_an_error() {
    let mut transport = TableReader::new(vec![(1, Some(vec![1]))], 0);
    let mut reader = ConsistentReader::new();
    let mut task = LoadTask::new(vec![1]);
    let result = reader.with_view(&mut transport, &mut task);
    assert_eq!(result, Err(OperationError::SingleAccountBatchRefused));
}
