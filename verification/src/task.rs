use crate::classify::StatementKind;
use crate::error::ExecutionError;
use crate::error::PoolExhausted;
use crate::rows::mutation_result;
use crate::rows::read_result;
use crate::rows::FetchedRow;
use crate::rows::Rows;
use tokio::task::JoinError;
use tokio::task::JoinHandle;
use vstd::prelude::*;

verus! {

/// `tokio::task::JoinHandle<T>`: the owner's end of a spawned worker whose output
/// is a `T`. Nothing inside a handle is visible to the verifier; the driver keeps
/// it, asks whether the worker has finished, aborts it, or hands it out to be
/// awaited.
#[verifier::external_type_specification]
#[verifier::external_body]
#[verifier::reject_recursive_types(T)]
pub struct ExJoinHandle<T>(JoinHandle<T>);

/// `tokio::task::JoinError`: why awaiting a worker failed (it panicked or was
/// cancelled). It is the error half of what a handle yields when awaited, and is
/// only passed on.
#[verifier::external_type_specification]
#[verifier::external_body]
pub struct ExJoinError(JoinError);

/// `JoinHandle::is_finished`: whether the worker has run to its end. The answer
/// depends on scheduling, so nothing is claimed about it.
pub assume_specification<T>[ JoinHandle::<T>::is_finished ](handle: &JoinHandle<T>) -> (finished:
    bool)
;

/// `JoinHandle::abort`: asks the runtime to cancel the worker. The request is
/// advisory and returns at once; nothing is claimed about its effect.
pub assume_specification<T>[ JoinHandle::<T>::abort ](handle: &JoinHandle<T>)
;

/// What a worker hands back: the statement's result or the failure of running
/// it, and the kind the statement was classified as.
#[derive(Debug, PartialEq, Eq)]
pub struct QueryResultsWithMetadata {
    pub results: Result<Rows, ExecutionError>,
    pub statement_kind: StatementKind,
}

impl QueryResultsWithMetadata {
    /// The count of touched rows that this result reports: none where the statement
    /// failed or the backend gave no count.
    pub open spec fn rows_affected(&self) -> Option<u64> {
        match self.results {
            Ok(rows) => rows.rows_affected,
            Err(_) => None,
        }
    }

    /// The result of a statement that ran has the shape of its kind: a read has no
    /// count, a mutating statement has neither headers nor rows.
    pub open spec fn well_formed(&self) -> bool {
        self.results matches Ok(rows) ==> match self.statement_kind {
            StatementKind::ReadQuery => rows.rows_affected is None,
            StatementKind::MutatingStatement => rows.headers@.len() == 0 && rows.rows@.len() == 0,
        }
    }

    /// What a read worker hands back: the rows that it fetched, shaped into a
    /// result, or the failure that kept it from fetching.
    pub fn of_read(fetched: Result<Vec<Option<FetchedRow>>, ExecutionError>) -> (out: Self)
        ensures
            out.statement_kind == StatementKind::ReadQuery,
            out.well_formed(),
            fetched is Ok ==> out.results is Ok && out.results->Ok_0@ == read_result(
                fetched->Ok_0.deep_view(),
            ),
            fetched is Err ==> out.results is Err && out.results->Err_0 == fetched->Err_0,
    {
        let results = match fetched {
            Ok(rows) => Ok(Rows::from_fetched(rows)),
            Err(error) => Err(error),
        };
        QueryResultsWithMetadata { results, statement_kind: StatementKind::ReadQuery }
    }

    /// What a transaction worker hands back beside its connection: the count that
    /// the backend gave, if it gave one, or the failure of the statement.
    pub fn of_mutation(executed: Result<Option<u64>, ExecutionError>) -> (out: Self)
        ensures
            out.statement_kind == StatementKind::MutatingStatement,
            out.well_formed(),
            executed is Ok ==> out.results is Ok && out.results->Ok_0@ == mutation_result(
                executed->Ok_0,
            ) && out.rows_affected() == executed->Ok_0,
            executed is Err ==> out.results is Err && out.results->Err_0 == executed->Err_0,
    {
        let results = match executed {
            Ok(count) => Ok(Rows::affected(count)),
            Err(error) => Err(error),
        };
        QueryResultsWithMetadata { results, statement_kind: StatementKind::MutatingStatement }
    }
}

/// The handle of a worker that runs a read.
pub type QueryTask = JoinHandle<QueryResultsWithMetadata>;

/// The handle of a worker that runs a mutating statement on a connection of its
/// own and gives the connection back with the result.
pub type TransactionTask<C> = JoinHandle<(QueryResultsWithMetadata, C)>;

/// The one unit of work that a driver tracks.
#[derive(Debug)]
#[verifier::reject_recursive_types(C)]
pub enum OracleTask<C> {
    /// A read is running on a worker.
    Query(QueryTask),
    /// A mutating statement is running on a worker that owns its connection.
    TxStart(TransactionTask<C>),
    /// A mutating statement has ended; its connection is held open until the
    /// caller commits or rolls back.
    TxPending(C, QueryResultsWithMetadata),
}

/// What came of launching a worker for a classified statement.
#[derive(Debug)]
#[verifier::reject_recursive_types(C)]
pub enum Launched<C> {
    /// A worker was spawned for a read.
    Query(QueryTask),
    /// A connection was checked out and a worker spawned for a mutating statement.
    Transaction(TransactionTask<C>),
    /// No connection could be checked out, so no worker was spawned.
    Refused(PoolExhausted),
}

/// The outcome of one poll, as the front end sees it.
#[derive(Debug, PartialEq, Eq)]
pub enum DbTaskResult {
    /// Nothing is tracked.
    NoTask,
    /// Work is running, or a transaction waits for commit or rollback.
    Pending,
    /// A read has ended; this is its result, delivered once.
    Finished(QueryResultsWithMetadata),
    /// A mutating statement has ended and its connection is held: the count of
    /// touched rows where known, and the statement's kind.
    ConfirmTx(Option<u64>, StatementKind),
}

/// What a poll asks of the caller.
#[derive(Debug)]
#[verifier::reject_recursive_types(C)]
pub enum PollStep<C> {
    /// Nothing to await: this is the outcome of the poll.
    Done(DbTaskResult),
    /// The read has ended and left the slot: await this handle and report what it
    /// yields.
    AwaitQuery(QueryTask),
    /// The mutating statement has ended and left the slot: await this handle and
    /// give the driver the connection to hold.
    AwaitTx(TransactionTask<C>),
}

/// Where the slot stands in the life of a task.
#[derive(Clone, Copy, Debug, PartialEq, Eq, Structural)]
pub enum TaskState {
    /// Nothing is tracked.
    Empty,
    /// A read or a mutating statement is running on a worker.
    Running,
    /// A mutating statement has ended and its connection is held open.
    HeldOpen,
}

/// The state that a slot is in.
pub open spec fn state_of<C>(slot: Option<OracleTask<C>>) -> TaskState {
    match slot {
        None => TaskState::Empty,
        Some(OracleTask::Query(_)) => TaskState::Running,
        Some(OracleTask::TxStart(_)) => TaskState::Running,
        Some(OracleTask::TxPending(_, _)) => TaskState::HeldOpen,
    }
}

/// The slot after the caller reports a launch: a spawned worker takes the slot,
/// whatever it held; a refused checkout leaves it as it was.
pub open spec fn started<C>(slot: Option<OracleTask<C>>, launched: Launched<C>) -> Option<
    OracleTask<C>,
> {
    match launched {
        Launched::Query(handle) => Some(OracleTask::Query(handle)),
        Launched::Transaction(handle) => Some(OracleTask::TxStart(handle)),
        Launched::Refused(_) => slot,
    }
}

/// One poll of the slot, where `finished` is what the tracked worker answered when
/// asked whether it has ended: the slot afterwards, and the step for the caller.
pub open spec fn polled<C>(slot: Option<OracleTask<C>>, finished: bool) -> (
    Option<OracleTask<C>>,
    PollStep<C>,
) {
    match slot {
        None => (None, PollStep::Done(DbTaskResult::NoTask)),
        Some(OracleTask::Query(handle)) => if finished {
            (None, PollStep::AwaitQuery(handle))
        } else {
            (slot, PollStep::Done(DbTaskResult::Pending))
        },
        Some(OracleTask::TxStart(handle)) => if finished {
            (None, PollStep::AwaitTx(handle))
        } else {
            (slot, PollStep::Done(DbTaskResult::Pending))
        },
        Some(OracleTask::TxPending(_, _)) => (slot, PollStep::Done(DbTaskResult::Pending)),
    }
}

/// What the front end is told once a read worker has been awaited.
pub open spec fn query_joined(joined: Result<QueryResultsWithMetadata, JoinError>) -> Result<
    DbTaskResult,
    JoinError,
> {
    match joined {
        Ok(results) => Ok(DbTaskResult::Finished(results)),
        Err(error) => Err(error),
    }
}

/// The slot, and what the front end is told, once a transaction worker has been
/// awaited: its connection is held with the result, also where the statement
/// failed; a worker that did not end properly leaves the slot as it is.
pub open spec fn tx_joined<C>(
    slot: Option<OracleTask<C>>,
    joined: Result<(QueryResultsWithMetadata, C), JoinError>,
) -> (Option<OracleTask<C>>, Result<DbTaskResult, JoinError>) {
    match joined {
        Ok((results, connection)) => (
            Some(OracleTask::TxPending(connection, results)),
            Ok(DbTaskResult::ConfirmTx(results.rows_affected(), results.statement_kind)),
        ),
        Err(error) => (slot, Err(error)),
    }
}

/// What a commit finds in the slot: the held connection and result, if a
/// transaction is pending.
pub open spec fn held<C>(slot: Option<OracleTask<C>>) -> Option<(C, QueryResultsWithMetadata)> {
    match slot {
        Some(OracleTask::TxPending(connection, results)) => Some((connection, results)),
        _ => None,
    }
}

/// What a rollback finds in the slot: the held connection, if a transaction is
/// pending.
pub open spec fn held_connection<C>(slot: Option<OracleTask<C>>) -> Option<C> {
    match held(slot) {
        Some((connection, _)) => Some(connection),
        None => None,
    }
}

/// The slot after a commit or a rollback: a pending transaction leaves it; an
/// empty slot and a running task stay as they are, so that a speculative call
/// does no harm.
pub open spec fn finalized<C>(slot: Option<OracleTask<C>>) -> Option<OracleTask<C>> {
    match slot {
        Some(OracleTask::TxPending(_, _)) => None,
        _ => slot,
    }
}

} // verus!
