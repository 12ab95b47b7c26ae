use crate::classify::classification;
use crate::classify::classify;
use crate::classify::parsed_sql;
use crate::classify::FirstStatement;
use crate::classify::StatementKind;
use crate::error::PoolExhausted;
use crate::error::StartError;
use crate::task::finalized;
use crate::task::held;
use crate::task::held_connection;
use crate::task::polled;
use crate::task::query_joined;
use crate::task::started;
use crate::task::state_of;
use crate::task::tx_joined;
use crate::task::DbTaskResult;
use crate::task::Launched;
use crate::task::OracleTask;
use crate::task::PollStep;
use crate::task::QueryResultsWithMetadata;
use crate::task::QueryTask;
use crate::task::TransactionTask;
use crate::task::TaskState;
use tokio::task::JoinError;
use vstd::prelude::*;

verus! {

/// The most connections that a driver's pool may hold.
pub const MAX_POOL_CONNECTIONS: u32 = 3;

/// The execution core of one database session: the pool it was given and the one
/// task it tracks. `P` is the pool handle and `C` a connection checked out of it;
/// the driver stores both and never looks inside.
#[verifier::reject_recursive_types(C)]
pub struct OracleDriver<P, C> {
    pool: Option<P>,
    task: Option<OracleTask<C>>,
}

impl<P, C> OracleDriver<P, C> {
    /// The pool that the driver was initialised with, if it was.
    pub closed spec fn pool_handle(&self) -> Option<P> {
        self.pool
    }

    /// The task slot: what the driver tracks, if anything.
    pub closed spec fn slot(&self) -> Option<OracleTask<C>> {
        self.task
    }

    /// A driver without a pool that tracks nothing.
    pub fn new() -> (driver: Self)
        ensures
            driver.pool_handle() is None,
            driver.slot() is None,
    {
        OracleDriver { pool: None, task: None }
    }

    /// Gives the driver its pool. The slot is not touched.
    pub fn init(&mut self, pool: P)
        ensures
            final(self).pool_handle() == Some(pool),
            final(self).slot() == old(self).slot(),
    {
        self.pool = Some(pool);
    }

    /// The pool, once `init` has run.
    pub fn pool(&self) -> (pool: Option<&P>)
        ensures
            pool is Some <==> self.pool_handle() is Some,
            pool is Some ==> *pool->0 == self.pool_handle()->0,
    {
        self.pool.as_ref()
    }

    /// Where the slot stands: empty, running or holding a transaction open.
    pub fn state(&self) -> (state: TaskState)
        ensures
            state == state_of(self.slot()),
    {
        match &self.task {
            None => TaskState::Empty,
            Some(OracleTask::Query(_)) => TaskState::Running,
            Some(OracleTask::TxStart(_)) => TaskState::Running,
            Some(OracleTask::TxPending(_, _)) => TaskState::HeldOpen,
        }
    }

    /// Records what came of launching a worker. A spawned worker replaces whatever
    /// the slot held, without awaiting or aborting it; a refused checkout is
    /// returned as the error and leaves the slot alone.
    pub fn record_launch(&mut self, launched: Launched<C>) -> (outcome: Result<(), PoolExhausted>)
        ensures
            final(self).slot() == started(old(self).slot(), launched),
            final(self).pool_handle() == old(self).pool_handle(),
            outcome is Err <==> launched is Refused,
            outcome is Err ==> outcome->Err_0 == launched->Refused_0,
    {
        match launched {
            Launched::Query(handle) => {
                self.task = Some(OracleTask::Query(handle));
                Ok(())
            },
            Launched::Transaction(handle) => {
                self.task = Some(OracleTask::TxStart(handle));
                Ok(())
            },
            Launched::Refused(exhausted) => Err(exhausted),
        }
    }

    /// Starts the first statement of `sql` and returns at once. The text is
    /// classified; a text that cannot be classified is rejected and nothing is
    /// launched. A read is handed to `spawn_read`, and the worker that it spawns is
    /// tracked as a query. Any other statement is handed to `spawn_tx`, which
    /// checks a connection out and spawns a worker that owns it: that worker is
    /// tracked as the start of a transaction, and where no connection was to be
    /// had the failure is returned. Each of the two is given the text of the
    /// first statement as the parser wrote it back, and only one of them is
    /// called. A new task replaces whatever the slot held, without awaiting or
    /// aborting it; a failure leaves the slot as it was. Launching needs the pool,
    /// so the driver must have been initialised.
    pub fn start_query<R, T>(&mut self, sql: &str, spawn_read: R, spawn_tx: T) -> (outcome: Result<
        (),
        StartError,
    >) where
        R: FnOnce(String) -> QueryTask,
        T: FnOnce(String) -> Result<TransactionTask<C>, PoolExhausted>,

        requires
            old(self).pool_handle() is Some,
            forall|text: String| spawn_read.requires((text,)),
            forall|text: String| spawn_tx.requires((text,)),
        ensures
            final(self).pool_handle() == old(self).pool_handle(),
            sql@.len() == 0 ==> (outcome matches Err(StartError::Classify(c)) && c is Empty),
            (match classification(parsed_sql(sql@)) {
                Err(e) => {
                    &&& outcome matches Err(StartError::Classify(c)) && c@ == e
                    &&& final(self).slot() == old(self).slot()
                },
                Ok(first) => match first.kind {
                    StatementKind::ReadQuery => {
                        &&& outcome is Ok
                        &&& exists|h: QueryTask, text: String|
                            text@ == first.text && #[trigger] spawn_read.ensures((text,), h)
                                && final(self).slot() == Some(OracleTask::<C>::Query(h))
                    },
                    StatementKind::MutatingStatement => exists|
                        r: Result<TransactionTask<C>, PoolExhausted>,
                        text: String,
                    |
                        text@ == first.text && #[trigger] spawn_tx.ensures((text,), r) && match r {
                            Ok(h) => {
                                &&& outcome is Ok
                                &&& final(self).slot() == Some(OracleTask::TxStart(h))
                            },
                            Err(x) => {
                                &&& outcome matches Err(StartError::Pool(y)) && y == x
                                &&& final(self).slot() == old(self).slot()
                            },
                        },
                },
            }),
            exists|launched: Launched<C>| #[trigger]
                started(old(self).slot(), launched) == final(self).slot(),
    {
        match classify(sql) {
            Err(error) => {
                proof {
                    let unchanged = Launched::<C>::Refused(arbitrary());
                    assert(started(old(self).slot(), unchanged) == self.slot());
                }
                Err(StartError::Classify(error))
            },
            Ok(first) => {
                let FirstStatement { text, kind } = first;
                match kind {
                    StatementKind::ReadQuery => {
                        let handle = spawn_read(text);
                        let _ = self.record_launch(Launched::Query(handle));
                        Ok(())
                    },
                    StatementKind::MutatingStatement => {
                        let launched = match spawn_tx(text) {
                            Ok(handle) => Launched::Transaction(handle),
                            Err(exhausted) => Launched::Refused(exhausted),
                        };
                        match self.record_launch(launched) {
                            Ok(()) => Ok(()),
                            Err(exhausted) => Err(StartError::Pool(exhausted)),
                        }
                    },
                }
            },
        }
    }

    /// The same as `start_query`: a statement that opens a transaction goes
    /// through the same slot as any other.
    pub fn start_tx<R, T>(&mut self, sql: &str, spawn_read: R, spawn_tx: T) -> (outcome: Result<
        (),
        StartError,
    >) where
        R: FnOnce(String) -> QueryTask,
        T: FnOnce(String) -> Result<TransactionTask<C>, PoolExhausted>,

        requires
            old(self).pool_handle() is Some,
            forall|text: String| spawn_read.requires((text,)),
            forall|text: String| spawn_tx.requires((text,)),
        ensures
            final(self).pool_handle() == old(self).pool_handle(),
            sql@.len() == 0 ==> (outcome matches Err(StartError::Classify(c)) && c is Empty),
            (match classification(parsed_sql(sql@)) {
                Err(e) => {
                    &&& outcome matches Err(StartError::Classify(c)) && c@ == e
                    &&& final(self).slot() == old(self).slot()
                },
                Ok(first) => match first.kind {
                    StatementKind::ReadQuery => {
                        &&& outcome is Ok
                        &&& exists|h: QueryTask, text: String|
                            text@ == first.text && #[trigger] spawn_read.ensures((text,), h)
                                && final(self).slot() == Some(OracleTask::<C>::Query(h))
                    },
                    StatementKind::MutatingStatement => exists|
                        r: Result<TransactionTask<C>, PoolExhausted>,
                        text: String,
                    |
                        text@ == first.text && #[trigger] spawn_tx.ensures((text,), r) && match r {
                            Ok(h) => {
                                &&& outcome is Ok
                                &&& final(self).slot() == Some(OracleTask::TxStart(h))
                            },
                            Err(x) => {
                                &&& outcome matches Err(StartError::Pool(y)) && y == x
                                &&& final(self).slot() == old(self).slot()
                            },
                        },
                },
            }),
            exists|launched: Launched<C>| #[trigger]
                started(old(self).slot(), launched) == final(self).slot(),
    {
        self.start_query(sql, spawn_read, spawn_tx)
    }

    /// Empties the slot and says whether it held anything. A running worker is
    /// asked to stop; a held transaction is dropped with its connection, neither
    /// committed nor rolled back.
    pub fn abort_query(&mut self) -> (aborted: bool)
        ensures
            final(self).slot() is None,
            final(self).pool_handle() == old(self).pool_handle(),
            aborted == old(self).slot() is Some,
    {
        match self.task.take() {
            Some(task) => {
                match task {
                    OracleTask::Query(handle) => handle.abort(),
                    OracleTask::TxStart(handle) => handle.abort(),
                    OracleTask::TxPending(_, _) => {},
                }
                true
            },
            None => false,
        }
    }

    /// One poll, given what the tracked worker answered when asked whether it has
    /// ended. A worker that has ended leaves the slot with the step that hands it
    /// out, so that whatever awaiting it brings, the slot is already empty.
    pub fn poll_observed(&mut self, finished: bool) -> (step: PollStep<C>)
        ensures
            (final(self).slot(), step) == polled(old(self).slot(), finished),
            final(self).pool_handle() == old(self).pool_handle(),
    {
        match self.task.take() {
            None => PollStep::Done(DbTaskResult::NoTask),
            Some(OracleTask::Query(handle)) => {
                if finished {
                    PollStep::AwaitQuery(handle)
                } else {
                    self.task = Some(OracleTask::Query(handle));
                    PollStep::Done(DbTaskResult::Pending)
                }
            },
            Some(OracleTask::TxStart(handle)) => {
                if finished {
                    PollStep::AwaitTx(handle)
                } else {
                    self.task = Some(OracleTask::TxStart(handle));
                    PollStep::Done(DbTaskResult::Pending)
                }
            },
            Some(OracleTask::TxPending(connection, results)) => {
                self.task = Some(OracleTask::TxPending(connection, results));
                PollStep::Done(DbTaskResult::Pending)
            },
        }
    }

    /// One poll that never blocks: asks the tracked worker, if one is running,
    /// whether it has ended, and goes on as `poll_observed` does. What the worker
    /// answers is not known beforehand, so the outcome is that of one of the two
    /// answers.
    pub fn get_query_results(&mut self) -> (step: PollStep<C>)
        ensures
            (final(self).slot(), step) == polled(old(self).slot(), true) || (final(self).slot(), step)
                == polled(old(self).slot(), false),
            final(self).pool_handle() == old(self).pool_handle(),
    {
        let finished = match &self.task {
            Some(OracleTask::Query(handle)) => handle.is_finished(),
            Some(OracleTask::TxStart(handle)) => handle.is_finished(),
            _ => false,
        };
        self.poll_observed(finished)
    }

    /// Turns what awaiting a read worker brought into the outcome of the poll: its
    /// result, delivered as `Finished`, or the failure of the worker itself.
    pub fn finish_query(joined: Result<QueryResultsWithMetadata, JoinError>) -> (outcome: Result<
        DbTaskResult,
        JoinError,
    >)
        ensures
            outcome == query_joined(joined),
    {
        match joined {
            Ok(results) => Ok(DbTaskResult::Finished(results)),
            Err(error) => Err(error),
        }
    }

    /// Takes over what awaiting a transaction worker brought. The connection goes
    /// into the slot with the result, also where the statement failed, and the
    /// front end is asked to confirm; a worker that did not end properly is
    /// reported and the slot stays as it is.
    pub fn finish_tx(&mut self, joined: Result<(QueryResultsWithMetadata, C), JoinError>) -> (outcome:
        Result<DbTaskResult, JoinError>)
        ensures
            (final(self).slot(), outcome) == tx_joined(old(self).slot(), joined),
            final(self).pool_handle() == old(self).pool_handle(),
    {
        match joined {
            Ok((results, connection)) => {
                let rows_affected = match &results.results {
                    Ok(rows) => rows.rows_affected,
                    Err(_) => None,
                };
                let confirm = DbTaskResult::ConfirmTx(rows_affected, results.statement_kind);
                self.task = Some(OracleTask::TxPending(connection, results));
                Ok(confirm)
            },
            Err(error) => Err(error),
        }
    }

    /// Takes a pending transaction out of the slot for a commit: its connection
    /// comes back to be committed and dropped, with the result that was held.
    /// Where no transaction is pending nothing comes back, which is no error, and
    /// the slot stays as it is: a running task goes on and can still be polled.
    pub fn commit_tx(&mut self) -> (pending: Option<(C, QueryResultsWithMetadata)>)
        ensures
            final(self).slot() == finalized(old(self).slot()),
            final(self).pool_handle() == old(self).pool_handle(),
            pending == held(old(self).slot()),
            pending is Some <==> old(self).slot() matches Some(OracleTask::TxPending(_, _)),
    {
        match self.task.take() {
            Some(OracleTask::TxPending(connection, results)) => Some((connection, results)),
            other => {
                self.task = other;
                None
            },
        }
    }

    /// Takes a pending transaction out of the slot for a rollback: its connection
    /// comes back to be rolled back and dropped. Where no transaction is pending
    /// nothing comes back, which is no error, and the slot stays as it is: a
    /// running task goes on and can still be polled.
    pub fn rollback_tx(&mut self) -> (pending: Option<C>)
        ensures
            final(self).slot() == finalized(old(self).slot()),
            final(self).pool_handle() == old(self).pool_handle(),
            pending == held_connection(old(self).slot()),
            pending is Some <==> old(self).slot() matches Some(OracleTask::TxPending(_, _)),
    {
        match self.task.take() {
            Some(OracleTask::TxPending(connection, _)) => Some(connection),
            other => {
                self.task = other;
                None
            },
        }
    }
}

impl<P, C> Default for OracleDriver<P, C> {
    fn default() -> (driver: Self)
        ensures
            driver.pool_handle() is None,
            driver.slot() is None,
    {
        OracleDriver::new()
    }
}

} // verus!
