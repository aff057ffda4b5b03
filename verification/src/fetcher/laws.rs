//! What holds of the queue and of the worker, whatever is offered and
//! whatever the origin answers.

use vstd::prelude::*;

use super::error::DispatchError;
use super::parser::Document;
use super::worker::{
    is_success, status_after, worker_asks, worker_expects, worker_moves, WorkerAction, WorkerEvent,
    WorkerState,
};
use super::{offered, queue_valid, received, Enqueued, FetchTask, QueueView, Received};
use crate::database::models::{FeedId, FeedStatus};
use crate::database::{
    lemma_lookup_row, lemma_status_row, lookup, status_of, well_formed, with_status, TableView,
};

verus! {

/// One use of the queue.
pub enum QueueOp {
    /// A producer offers a task.
    Offer(FetchTask),
    /// The worker asks for a task.
    Receive,
    /// The queue is closed.
    Close,
}

/// A queue together with what has passed through it.
pub struct QueueTrace {
    /// The queue as it stands.
    pub queue: QueueView,
    /// The tasks that the queue accepted, in the order of their offers.
    pub accepted: Seq<FetchTask>,
    /// The tasks that were handed back to their producers: the queue was full or closed.
    pub returned: Seq<FetchTask>,
    /// The tasks that the worker was given, in the order in which it got them.
    pub delivered: Seq<FetchTask>,
}

/// The trace after one more use of the queue.
pub open spec fn applied(trace: QueueTrace, op: QueueOp) -> QueueTrace {
    match op {
        QueueOp::Offer(task) => {
            let (queue, result) = offered(trace.queue, task);
            match result {
                Ok(Enqueued::Accepted) => QueueTrace {
                    queue,
                    accepted: trace.accepted.push(task),
                    ..trace
                },
                _ => QueueTrace { queue, returned: trace.returned.push(task), ..trace },
            }
        },
        QueueOp::Receive => {
            let (queue, result) = received(trace.queue);
            match result {
                Received::Task(task) => QueueTrace {
                    queue,
                    delivered: trace.delivered.push(task),
                    ..trace
                },
                _ => QueueTrace { queue, ..trace },
            }
        },
        QueueOp::Close => QueueTrace { queue: QueueView { closed: true, ..trace.queue }, ..trace },
    }
}

/// The trace of `queue` after the uses `ops`, in order.
pub open spec fn replayed(queue: QueueView, ops: Seq<QueueOp>) -> QueueTrace
    decreases ops.len(),
{
    if ops.len() == 0 {
        QueueTrace { queue, accepted: Seq::empty(), returned: Seq::empty(), delivered: Seq::empty() }
    } else {
        applied(replayed(queue, ops.drop_last()), ops.last())
    }
}

/// How many of `ops` are offers.
pub open spec fn offers_in(ops: Seq<QueueOp>) -> nat
    decreases ops.len(),
{
    if ops.len() == 0 {
        0
    } else {
        offers_in(ops.drop_last()) + (if ops.last() is Offer { 1nat } else { 0nat })
    }
}

/// Whatever is done with the queue, in whatever order: the tasks that were
/// delivered, followed by those that still wait, are the tasks that waited at
/// the start followed by those that were accepted since. So tasks leave in
/// the order in which they came, and none is lost. Every offer was either
/// accepted or handed back, and the queue never holds more than its capacity.
pub proof fn lemma_queue_conserves(queue: QueueView, ops: Seq<QueueOp>)
    requires
        queue_valid(queue),
    ensures
        ({
            let trace = replayed(queue, ops);
            &&& queue_valid(trace.queue)
            &&& trace.queue.capacity == queue.capacity
            &&& trace.delivered + trace.queue.pending == queue.pending + trace.accepted
            &&& trace.accepted.len() + trace.returned.len() == offers_in(ops)
        }),
    decreases ops.len(),
{
    if ops.len() > 0 {
        lemma_queue_conserves(queue, ops.drop_last());
        let before = replayed(queue, ops.drop_last());
        let after = replayed(queue, ops);
        assert(after == applied(before, ops.last()));
        match ops.last() {
            QueueOp::Offer(task) => {
                if !before.queue.closed && before.queue.pending.len() < before.queue.capacity {
                    assert(after.delivered + after.queue.pending =~= (before.delivered
                        + before.queue.pending).push(task));
                    assert(queue.pending + after.accepted =~= (queue.pending + before.accepted).push(
                        task,
                    ));
                }
            },
            QueueOp::Receive => {
                if before.queue.pending.len() > 0 {
                    assert(after.delivered + after.queue.pending =~= before.delivered
                        + before.queue.pending);
                }
            },
            QueueOp::Close => {},
        }
    } else {
        assert(Seq::<FetchTask>::empty() + queue.pending =~= queue.pending + Seq::<FetchTask>::empty());
    }
}

/// Offers of `tasks`, in order.
pub open spec fn offers(tasks: Seq<FetchTask>) -> Seq<QueueOp> {
    Seq::new(tasks.len(), |i: int| QueueOp::Offer(tasks[i]))
}

/// `count` requests of the worker for a task.
pub open spec fn receives(count: nat) -> Seq<QueueOp> {
    Seq::new(count, |i: int| QueueOp::Receive)
}

/// Offers of `tasks` to a queue with room for them are all accepted, behind
/// what waits already.
pub proof fn lemma_offers_accepted(queue: QueueView, tasks: Seq<FetchTask>)
    requires
        queue_valid(queue),
        !queue.closed,
        queue.pending.len() + tasks.len() <= queue.capacity,
    ensures
        ({
            let trace = replayed(queue, offers(tasks));
            &&& trace.queue == (QueueView { pending: queue.pending + tasks, ..queue })
            &&& trace.accepted == tasks
            &&& trace.returned.len() == 0
            &&& trace.delivered.len() == 0
        }),
    decreases tasks.len(),
{
    if tasks.len() > 0 {
        let front = tasks.drop_last();
        lemma_offers_accepted(queue, front);
        assert(offers(tasks).drop_last() =~= offers(front));
        assert(offers(tasks).last() == QueueOp::Offer(tasks.last()));
        assert((queue.pending + front).push(tasks.last()) =~= queue.pending + tasks);
        assert(front.push(tasks.last()) =~= tasks);
    } else {
        assert(queue.pending + tasks =~= queue.pending);
        assert(offers(tasks) =~= Seq::<QueueOp>::empty());
    }
}

/// A worker that asks `count` times gets the `count` oldest waiting tasks,
/// the oldest first.
pub proof fn lemma_receives_oldest(queue: QueueView, count: nat)
    requires
        count <= queue.pending.len(),
    ensures
        ({
            let trace = replayed(queue, receives(count));
            &&& trace.queue == (QueueView { pending: queue.pending.skip(count as int), ..queue })
            &&& trace.delivered == queue.pending.take(count as int)
            &&& trace.accepted.len() == 0
            &&& trace.returned.len() == 0
        }),
    decreases count,
{
    if count > 0 {
        let fewer = (count - 1) as nat;
        lemma_receives_oldest(queue, fewer);
        assert(receives(count).drop_last() =~= receives(fewer));
        assert(receives(count).last() == QueueOp::Receive);
        let before = replayed(queue, receives(fewer));
        assert(before.queue.pending[0] == queue.pending[fewer as int]);
        assert(before.queue.pending.drop_first() =~= queue.pending.skip(count as int));
        assert(queue.pending.take(fewer as int).push(queue.pending[fewer as int])
            =~= queue.pending.take(count as int));
    } else {
        assert(queue.pending.skip(0) =~= queue.pending);
        assert(queue.pending.take(0) =~= Seq::<FetchTask>::empty());
        assert(receives(count) =~= Seq::<QueueOp>::empty());
    }
}

/// Tasks that are offered in some order to an empty queue with room for them
/// reach the worker in that order.
pub proof fn lemma_first_in_first_out(capacity: nat, tasks: Seq<FetchTask>)
    requires
        1 <= capacity,
        tasks.len() <= capacity,
    ensures
        ({
            let empty = QueueView { pending: Seq::empty(), capacity, closed: false };
            let filled = replayed(empty, offers(tasks)).queue;
            let trace = replayed(filled, receives(tasks.len()));
            &&& filled.pending == tasks
            &&& trace.delivered == tasks
            &&& trace.queue.pending.len() == 0
        }),
{
    let empty = QueueView { pending: Seq::empty(), capacity, closed: false };
    lemma_offers_accepted(empty, tasks);
    let filled = replayed(empty, offers(tasks)).queue;
    assert(Seq::<FetchTask>::empty() + tasks =~= tasks);
    lemma_receives_oldest(filled, tasks.len());
    assert(tasks.take(tasks.len() as int) =~= tasks);
}

/// A full queue hands an offered task back and stays as it is, so the
/// producer has to wait; as soon as the worker has taken one task, the same
/// offer is accepted, behind the tasks that waited.
pub proof fn lemma_backpressure(queue: QueueView, task: FetchTask)
    requires
        queue_valid(queue),
        !queue.closed,
        queue.pending.len() == queue.capacity,
    ensures
        offered(queue, task) == (queue, Ok::<Enqueued, DispatchError>(Enqueued::Suspended(task))),
        received(queue).1 == Received::Task(queue.pending[0]),
        offered(received(queue).0, task) == (
            QueueView { pending: queue.pending.drop_first().push(task), ..queue },
            Ok::<Enqueued, DispatchError>(Enqueued::Accepted),
        ),
{
}

/// The worker ends only when it is idle and the queue is closed and drained:
/// no answer of an origin, and no body, ends it.
pub proof fn lemma_worker_survives(before: WorkerState, event: WorkerEvent, after: WorkerState)
    requires
        worker_moves(before, event, after),
        after is Stopped,
    ensures
        before is Stopped || (before is Idle && event is QueueClosed),
{
}

/// An event that answers nothing the worker asked for changes nothing.
pub proof fn lemma_unexpected_is_ignored(before: WorkerState, event: WorkerEvent, after: WorkerState)
    requires
        worker_moves(before, event, after),
        !worker_expects(before, event),
    ensures
        after == before,
{
}

/// The worker takes a task only when no fetch is in flight, and while one is
/// in flight it asks for nothing from the queue.
pub proof fn lemma_one_fetch_at_a_time(state: WorkerState, action: WorkerAction)
    requires
        worker_asks(state, action),
    ensures
        action is Receive <==> state is Idle,
        action is Stop <==> state is Stopped,
{
}

/// The task that the queue hands to an idle worker is the one that the
/// worker requests next, so tasks are processed in the order in which the
/// queue delivers them.
pub proof fn lemma_delivered_task_is_requested(
    task: FetchTask,
    after: WorkerState,
    action: WorkerAction,
)
    requires
        worker_moves(WorkerState::Idle, WorkerEvent::Task(task), after),
        worker_asks(after, action),
    ensures
        action matches WorkerAction::Get { task: requested } && *requested == task,
{
}

/// A fetch never puts a feed back to `Fetching`: that status is given at
/// creation only.
pub proof fn lemma_recorded_status_is_final(succeeded: bool)
    ensures
        status_after(succeeded) != FeedStatus::Fetching,
        status_after(succeeded) == FeedStatus::Fetched <==> succeeded,
{
}

/// Whether `event` reports that the fetch in flight has failed.
pub open spec fn reports_failure(event: WorkerEvent) -> bool {
    match event {
        WorkerEvent::Unreachable => true,
        WorkerEvent::Response(status) => !is_success(status),
        WorkerEvent::BodyFailed => true,
        WorkerEvent::Body(document) => document is None,
        _ => false,
    }
}

/// The task whose fetch is in flight in `state`.
pub open spec fn in_flight(state: WorkerState) -> Option<FetchTask> {
    match state {
        WorkerState::Requesting(task) => Some(task),
        WorkerState::Reading(task) => Some(task),
        _ => None,
    }
}

/// A failure at any stage of a fetch leads to an outcome for the same feed
/// that leaves the feed `Failed`.
pub proof fn lemma_failure_is_recorded(before: WorkerState, event: WorkerEvent, after: WorkerState)
    requires
        worker_moves(before, event, after),
        in_flight(before) is Some,
        worker_expects(before, event),
        reports_failure(event),
    ensures
        after matches WorkerState::Recording(outcome) && {
            &&& outcome.feed_id == in_flight(before)->0.feed_id
            &&& outcome.url == in_flight(before)->0.url
            &&& outcome.result is Err
            &&& status_after(outcome.result is Ok) == FeedStatus::Failed
        },
{
}

/// A fetch whose request is answered with success and in whose body the
/// parser finds a document ends in an outcome that leaves the feed `Fetched`;
/// any other answer ends in one that leaves it `Failed`.
pub proof fn lemma_fetch_outcome(
    task: FetchTask,
    status: u16,
    document: Option<Document>,
    requesting: WorkerState,
    reading: WorkerState,
    recording: WorkerState,
)
    requires
        worker_moves(WorkerState::Idle, WorkerEvent::Task(task), requesting),
        worker_moves(requesting, WorkerEvent::Response(status), reading),
        worker_moves(reading, WorkerEvent::Body(document), recording),
    ensures
        recording matches WorkerState::Recording(outcome) && {
            &&& outcome.feed_id == task.feed_id
            &&& outcome.result is Ok <==> is_success(status) && document is Some
            &&& status_after(outcome.result is Ok) == (if is_success(status) && document is Some {
                FeedStatus::Fetched
            } else {
                FeedStatus::Failed
            })
        },
{
}

/// Recording a status changes the status of the feed with that identifier
/// and nothing else: every feed keeps its identifier and its URL, every other
/// feed keeps its status, and the table stays well formed.
pub proof fn lemma_recorded(table: TableView, id: FeedId, status: FeedStatus)
    requires
        well_formed(table),
    ensures
        ({
            let rows = with_status(table.rows, id, status);
            &&& well_formed(TableView { rows, next_id: table.next_id })
            &&& rows.len() == table.rows.len()
            &&& forall|i: int|
                0 <= i < rows.len() ==> (#[trigger] rows[i]).id == table.rows[i].id && rows[i].url
                    == table.rows[i].url
            &&& status_of(table.rows, id) is Some ==> status_of(rows, id) == Some(status)
            &&& status_of(table.rows, id) is None ==> rows == table.rows
            &&& forall|other: FeedId| other != id ==> status_of(rows, other) == status_of(table.rows, other)
            &&& forall|url: Seq<char>| lookup(rows, url) == lookup(table.rows, url)
        }),
{
    let rows = with_status(table.rows, id, status);
    let after = TableView { rows, next_id: table.next_id };
    assert(well_formed(after));
    if status_of(table.rows, id) is Some {
        let i = choose|i: int| 0 <= i < table.rows.len() && #[trigger] table.rows[i].id == id;
        assert(rows[i].id == id);
        lemma_status_row(after, id, i);
    } else {
        assert(rows =~= table.rows);
    }
    assert forall|other: FeedId| other != id implies status_of(rows, other) == status_of(
        table.rows,
        other,
    ) by {
        if exists|i: int| 0 <= i < table.rows.len() && #[trigger] table.rows[i].id == other {
            let i = choose|i: int| 0 <= i < table.rows.len() && #[trigger] table.rows[i].id == other;
            assert(rows[i].id == other);
            lemma_status_row(table, other, i);
            lemma_status_row(after, other, i);
        } else {
            if exists|i: int| 0 <= i < rows.len() && #[trigger] rows[i].id == other {
                let i = choose|i: int| 0 <= i < rows.len() && #[trigger] rows[i].id == other;
                assert(table.rows[i].id == other);
            }
        }
    }
    assert forall|url: Seq<char>| lookup(rows, url) == lookup(table.rows, url) by {
        if exists|i: int| 0 <= i < table.rows.len() && #[trigger] table.rows[i].url == url {
            let i = choose|i: int| 0 <= i < table.rows.len() && #[trigger] table.rows[i].url == url;
            assert(rows[i].url == url);
            lemma_lookup_row(table, url, i);
            lemma_lookup_row(after, url, i);
        } else {
            if exists|i: int| 0 <= i < rows.len() && #[trigger] rows[i].url == url {
                let i = choose|i: int| 0 <= i < rows.len() && #[trigger] rows[i].url == url;
                assert(table.rows[i].url == url);
            }
        }
    }
}

} // verus!
