use crate::task::finalized;
use crate::task::held;
use crate::task::polled;
use crate::task::query_joined;
use crate::task::started;
use crate::task::state_of;
use crate::task::tx_joined;
use crate::task::DbTaskResult;
use crate::task::Launched;
use crate::task::OracleTask;
use crate::task::PollStep;
use crate::task::QueryResultsWithMetadata;
use crate::task::QueryTask;
use crate::task::TaskState;
use crate::task::TransactionTask;
use tokio::task::JoinError;
use vstd::prelude::*;

verus! {

/// One call that may change the slot, with what the outside world answered
/// where the call depends on it.
#[verifier::reject_recursive_types(C)]
pub enum Call<C> {
    /// `start_query` or `start_tx`, where this came of the launch. A text that
    /// could not be classified leaves the slot as a refused launch does.
    Start(Launched<C>),
    /// `abort_query`.
    Abort,
    /// `get_query_results`, where the tracked worker gave this answer.
    Poll(bool),
    /// `finish_tx`, with what awaiting the worker brought.
    FinishTx(Result<(QueryResultsWithMetadata, C), JoinError>),
    /// `commit_tx`.
    Commit,
    /// `rollback_tx`.
    Rollback,
}

/// The slot after one call.
pub open spec fn after<C>(slot: Option<OracleTask<C>>, call: Call<C>) -> Option<OracleTask<C>> {
    match call {
        Call::Start(launched) => started(slot, launched),
        Call::Abort => None,
        Call::Poll(finished) => polled(slot, finished).0,
        Call::FinishTx(joined) => tx_joined(slot, joined).0,
        Call::Commit => finalized(slot),
        Call::Rollback => finalized(slot),
    }
}

/// The slot after a run of calls, made one after the other.
pub open spec fn after_all<C>(slot: Option<OracleTask<C>>, calls: Seq<Call<C>>) -> Option<
    OracleTask<C>,
>
    decreases calls.len(),
{
    if calls.len() == 0 {
        slot
    } else {
        after(after_all(slot, calls.drop_last()), calls.last())
    }
}

/// The step that call `i` of a run returns, where that call is a poll.
pub open spec fn step_at<C>(slot: Option<OracleTask<C>>, calls: Seq<Call<C>>, i: int) -> PollStep<
    C,
> {
    polled(after_all(slot, calls.take(i)), calls[i]->Poll_0).1
}

/// Whether `call` reports a launch that spawned a worker.
pub open spec fn spawns<C>(call: Call<C>) -> bool {
    call matches Call::Start(launched) && !(launched is Refused)
}

/// Whether every one of `calls` is a start, and call `k` is the last of them that
/// spawned a worker.
pub open spec fn last_spawn<C>(calls: Seq<Call<C>>, k: int) -> bool {
    &&& forall|i: int| 0 <= i < calls.len() ==> calls[i] is Start
    &&& 0 <= k < calls.len()
    &&& spawns(calls[k])
    &&& forall|j: int| k < j < calls.len() ==> !spawns(calls[j])
}

/// However many statements are started in a row, the slot tracks one task: that of
/// the last start that spawned a worker, with nothing left of the slot's earlier
/// content or of the workers spawned before.
pub proof fn law_single_task<C>(slot: Option<OracleTask<C>>, calls: Seq<Call<C>>, k: int)
    requires
        last_spawn(calls, k),
    ensures
        after_all(slot, calls) == started(None, calls[k]->Start_0),
        after_all(slot, calls) is Some,
    decreases calls.len(),
{
    let earlier = calls.drop_last();
    if k < calls.len() - 1 {
        assert(!spawns(calls.last()));
        assert(calls.last() is Start);
        assert(earlier[k] == calls[k]);
        assert forall|i: int| 0 <= i < earlier.len() implies earlier[i] is Start by {
            assert(earlier[i] == calls[i]);
        }
        assert forall|j: int| k < j < earlier.len() implies !spawns(earlier[j]) by {
            assert(earlier[j] == calls[j]);
        }
        law_single_task(slot, earlier, k);
    }
}

/// Whether `call` puts a task into the slot: a start that spawned a worker, or
/// the arrival of a transaction's connection.
pub open spec fn installs<C>(call: Call<C>) -> bool {
    spawns(call) || call matches Call::FinishTx(Ok(_))
}

/// While its worker keeps answering that it has not ended, a read stays in the
/// slot.
proof fn lemma_unfinished_query_stays<C>(handle: QueryTask, calls: Seq<Call<C>>)
    requires
        forall|i: int| 0 <= i < calls.len() ==> calls[i] == Call::<C>::Poll(false),
    ensures
        after_all(Some(OracleTask::<C>::Query(handle)), calls) == Some(
            OracleTask::<C>::Query(handle),
        ),
    decreases calls.len(),
{
    if calls.len() > 0 {
        let earlier = calls.drop_last();
        assert forall|i: int| 0 <= i < earlier.len() implies earlier[i] == Call::<C>::Poll(
            false,
        ) by {
            assert(earlier[i] == calls[i]);
        }
        lemma_unfinished_query_stays::<C>(handle, earlier);
        assert(calls.last() == Call::<C>::Poll(false));
    }
}

/// Once the worker of a read has been handed out, the slot is empty and stays so
/// as long as nothing is put into it.
proof fn lemma_empty_after_delivery<C>(handle: QueryTask, calls: Seq<Call<C>>, first: int, n: int)
    requires
        0 <= first < n <= calls.len(),
        forall|i: int| 0 <= i < first ==> calls[i] == Call::<C>::Poll(false),
        calls[first] == Call::<C>::Poll(true),
        forall|i: int| first < i < calls.len() ==> !installs(calls[i]),
    ensures
        after_all(Some(OracleTask::<C>::Query(handle)), calls.take(n)) is None,
    decreases n,
{
    let run = calls.take(n);
    assert(run.drop_last() =~= calls.take(n - 1));
    assert(run.last() == calls[n - 1]);
    if n == first + 1 {
        assert forall|i: int| 0 <= i < calls.take(first).len() implies calls.take(first)[i]
            == Call::<C>::Poll(false) by {
            assert(calls.take(first)[i] == calls[i]);
        }
        lemma_unfinished_query_stays::<C>(handle, calls.take(first));
    } else {
        lemma_empty_after_delivery::<C>(handle, calls, first, n - 1);
        assert(!installs(calls[n - 1]));
    }
}

/// The result of a read is delivered exactly once. Take a slot that tracks a read
/// and a run of calls: polls up to the poll `first` at which the worker first
/// answers that it has ended, and after it any calls that put nothing new into
/// the slot. Every poll before `first` reports `Pending`; that poll alone hands
/// the worker out, and what awaiting it brings is reported as `Finished`; every
/// poll after it reports `NoTask`, and the slot ends up empty.
pub proof fn law_query_delivered_once<C>(
    handle: QueryTask,
    results: QueryResultsWithMetadata,
    calls: Seq<Call<C>>,
    first: int,
)
    requires
        0 <= first < calls.len(),
        forall|i: int| 0 <= i < first ==> calls[i] == Call::<C>::Poll(false),
        calls[first] == Call::<C>::Poll(true),
        forall|i: int| first < i < calls.len() ==> !installs(calls[i]),
    ensures
        ({
            let running = Some(OracleTask::<C>::Query(handle));
            &&& forall|i: int|
                0 <= i < first ==> #[trigger] step_at(running, calls, i) == PollStep::<C>::Done(
                    DbTaskResult::Pending,
                )
            &&& step_at(running, calls, first) == PollStep::<C>::AwaitQuery(handle)
            &&& forall|i: int|
                first < i < calls.len() && calls[i] is Poll ==> #[trigger] step_at(running, calls, i)
                    == PollStep::<C>::Done(DbTaskResult::NoTask)
            &&& after_all(running, calls) is None
        }),
        query_joined(Ok(results)) matches Ok(DbTaskResult::Finished(delivered)) && delivered
            == results,
{
    let running = Some(OracleTask::<C>::Query(handle));
    assert forall|i: int| 0 <= i <= first implies after_all(running, #[trigger] calls.take(i))
        == running by {
        assert forall|j: int| 0 <= j < calls.take(i).len() implies calls.take(i)[j] == Call::<
            C,
        >::Poll(false) by {
            assert(calls.take(i)[j] == calls[j]);
        }
        lemma_unfinished_query_stays::<C>(handle, calls.take(i));
    }
    assert forall|i: int| first < i <= calls.len() implies after_all(
        running,
        #[trigger] calls.take(i),
    ) is None by {
        lemma_empty_after_delivery::<C>(handle, calls, first, i);
    }
    assert(calls.take(calls.len() as int) =~= calls);
}

/// Whether `call` takes a held connection out of the slot or puts another task
/// in its place: an abort, a commit, a rollback, a start that spawned a worker, or
/// the arrival of another transaction's connection.
pub open spec fn lets_go<C>(call: Call<C>) -> bool {
    ||| call is Abort
    ||| call is Commit
    ||| call is Rollback
    ||| installs(call)
}

/// A transaction's connection is held until the caller finalizes. Once the worker
/// of a mutating statement has ended and been awaited, the front end is asked to
/// confirm, and the slot holds the connection and the result, also where the
/// statement failed. From then on, and as long as no call lets go of it, the slot
/// goes on holding that connection with that result, which is what a commit or a
/// rollback will find there, and every poll reports `Pending`.
pub proof fn law_transaction_held<C>(
    handle: TransactionTask<C>,
    connection: C,
    results: QueryResultsWithMetadata,
    calls: Seq<Call<C>>,
)
    requires
        forall|i: int| 0 <= i < calls.len() ==> !lets_go(calls[i]),
    ensures
        polled(Some(OracleTask::TxStart(handle)), true) == (
            None::<OracleTask<C>>,
            PollStep::AwaitTx(handle),
        ),
        tx_joined(None::<OracleTask<C>>, Ok((results, connection))).0 == Some(
            OracleTask::TxPending(connection, results),
        ),
        tx_joined(None::<OracleTask<C>>, Ok((results, connection))).1 matches Ok(
            DbTaskResult::ConfirmTx(count, kind),
        ) && count == results.rows_affected() && kind == results.statement_kind,
        ({
            let pending = Some(OracleTask::TxPending(connection, results));
            &&& after_all(pending, calls) == pending
            &&& state_of(after_all(pending, calls)) == TaskState::HeldOpen
            &&& held(after_all(pending, calls)) == Some((connection, results))
            &&& forall|i: int|
                0 <= i < calls.len() && calls[i] is Poll ==> #[trigger] step_at(pending, calls, i)
                    == PollStep::<C>::Done(DbTaskResult::Pending)
        }),
{
    let pending = Some(OracleTask::TxPending(connection, results));
    lemma_hold_kept(connection, results, calls);
    assert forall|i: int| 0 <= i < calls.len() && calls[i] is Poll implies #[trigger] step_at(
        pending,
        calls,
        i,
    ) == PollStep::<C>::Done(DbTaskResult::Pending) by {
        assert forall|j: int| 0 <= j < calls.take(i).len() implies !lets_go(calls.take(i)[j]) by {
            assert(calls.take(i)[j] == calls[j]);
        }
        lemma_hold_kept(connection, results, calls.take(i));
    }
}

/// A held transaction stays in the slot over any run of calls that do not let go
/// of it.
proof fn lemma_hold_kept<C>(connection: C, results: QueryResultsWithMetadata, calls: Seq<Call<C>>)
    requires
        forall|i: int| 0 <= i < calls.len() ==> !lets_go(calls[i]),
    ensures
        after_all(Some(OracleTask::TxPending(connection, results)), calls) == Some(
            OracleTask::TxPending(connection, results),
        ),
    decreases calls.len(),
{
    if calls.len() > 0 {
        let earlier = calls.drop_last();
        assert forall|i: int| 0 <= i < earlier.len() implies !lets_go(earlier[i]) by {
            assert(earlier[i] == calls[i]);
        }
        lemma_hold_kept(connection, results, earlier);
        assert(!lets_go(calls.last()));
    }
}

} // verus!
