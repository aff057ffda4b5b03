//! The fetch pipeline: a bounded queue of tasks and the worker that serves it.

use std::collections::VecDeque;
use vstd::prelude::*;

use crate::database::models::FeedId;

pub mod error;
pub mod laws;
pub mod parser;
pub mod worker;

pub use self::error::{DispatchError, FetcherError};
pub use self::worker::Fetcher;

verus! {

/// A request to fetch one feed.
#[derive(Debug)]
pub struct FetchTask {
    pub feed_id: FeedId,
    pub url: String,
}

/// The queue as contracts speak of it.
pub struct QueueView {
    /// The tasks that wait, the oldest first.
    pub pending: Seq<FetchTask>,
    /// How many tasks may wait at once.
    pub capacity: nat,
    /// Whether the queue was closed: it takes no more tasks.
    pub closed: bool,
}

/// What became of a task that was offered to the queue.
#[derive(Debug)]
pub enum Enqueued {
    /// The task waits in the queue.
    Accepted,
    /// The queue is full. The task comes back unchanged: the caller waits
    /// until the worker has taken a task, and offers it again.
    Suspended(FetchTask),
}

/// What the queue has for the worker.
#[derive(Debug)]
pub enum Received {
    /// The oldest waiting task.
    Task(FetchTask),
    /// Nothing waits, but more may come.
    Empty,
    /// Nothing waits and the queue is closed: nothing will come.
    Finished,
}

/// The queue after `task` was offered to it, and what became of the task.
pub open spec fn offered(queue: QueueView, task: FetchTask) -> (
    QueueView,
    Result<Enqueued, DispatchError>,
) {
    if queue.closed {
        (queue, Err(DispatchError))
    } else if queue.pending.len() >= queue.capacity {
        (queue, Ok(Enqueued::Suspended(task)))
    } else {
        (QueueView { pending: queue.pending.push(task), ..queue }, Ok(Enqueued::Accepted))
    }
}

/// The queue after the worker asked it for a task, and what it got.
pub open spec fn received(queue: QueueView) -> (QueueView, Received) {
    if queue.pending.len() > 0 {
        (QueueView { pending: queue.pending.drop_first(), ..queue }, Received::Task(queue.pending[0]))
    } else if queue.closed {
        (queue, Received::Finished)
    } else {
        (queue, Received::Empty)
    }
}

/// What every queue satisfies: it has room for at least one task and holds no
/// more than it has room for.
pub open spec fn queue_valid(queue: QueueView) -> bool {
    1 <= queue.capacity && queue.pending.len() <= queue.capacity
}

/// The way into the pipeline: a bounded first-in-first-out queue of tasks.
pub struct FetcherHandle {
    queue: VecDeque<FetchTask>,
    capacity: usize,
    closed: bool,
}

impl View for FetcherHandle {
    type V = QueueView;

    closed spec fn view(&self) -> QueueView {
        QueueView { pending: self.queue@, capacity: self.capacity as nat, closed: self.closed }
    }
}

impl FetcherHandle {
    #[verifier::type_invariant]
    spec fn inv(&self) -> bool {
        queue_valid(self@)
    }

    /// Moves the waiting tasks out, leaving an empty queue.
    fn take_queue(&mut self) -> (queue: VecDeque<FetchTask>)
        ensures
            queue == old(self).queue,
            final(self).queue@.len() == 0,
            final(self).capacity == old(self).capacity,
            final(self).closed == old(self).closed,
    {
        proof {
            use_type_invariant(&*self);
        }
        let mut queue: VecDeque<FetchTask> = VecDeque::new();
        core::mem::swap(&mut self.queue, &mut queue);
        queue
    }

    /// An open, empty queue with room for `capacity` tasks.
    pub fn with_capacity(capacity: usize) -> (handle: FetcherHandle)
        requires
            capacity > 0,
        ensures
            handle@ == (QueueView { pending: Seq::empty(), capacity: capacity as nat, closed: false }),
    {
        FetcherHandle { queue: VecDeque::new(), capacity, closed: false }
    }

    /// How many tasks wait.
    pub fn len(&self) -> (n: usize)
        ensures
            n == self@.pending.len(),
            queue_valid(self@),
    {
        proof {
            use_type_invariant(self);
        }
        self.queue.len()
    }

    /// How many tasks may wait at once.
    pub fn capacity(&self) -> (n: usize)
        ensures
            n == self@.capacity,
            queue_valid(self@),
    {
        proof {
            use_type_invariant(self);
        }
        self.capacity
    }

    /// Whether the queue was closed.
    pub fn is_closed(&self) -> (closed: bool)
        ensures
            closed == self@.closed,
    {
        self.closed
    }

    /// Offers `task` to the queue.
    ///
    /// An open queue with room takes it behind the tasks that wait. A full
    /// queue hands it back, for the caller to wait and offer it again: no task
    /// is dropped. A closed queue refuses it for good.
    pub fn fetch_feed(&mut self, task: FetchTask) -> (result: Result<Enqueued, DispatchError>)
        ensures
            (final(self)@, result) == offered(old(self)@, task),
            queue_valid(final(self)@),
    {
        proof {
            use_type_invariant(&*self);
        }
        if self.closed {
            return Err(DispatchError);
        }
        if self.queue.len() >= self.capacity {
            return Ok(Enqueued::Suspended(task));
        }
        let capacity = self.capacity;
        let mut queue = self.take_queue();
        queue.push_back(task);
        *self = FetcherHandle { queue, capacity, closed: false };
        Ok(Enqueued::Accepted)
    }

    /// Takes the oldest waiting task, if any.
    pub fn receive(&mut self) -> (result: Received)
        ensures
            (final(self)@, result) == received(old(self)@),
            queue_valid(final(self)@),
    {
        proof {
            use_type_invariant(&*self);
        }
        if self.queue.len() == 0 {
            return if self.closed {
                Received::Finished
            } else {
                Received::Empty
            };
        }
        let capacity = self.capacity;
        let closed = self.closed;
        let mut queue = self.take_queue();
        let first = queue.pop_front();
        *self = FetcherHandle { queue, capacity, closed };
        match first {
            Some(task) => Received::Task(task),
            None => Received::Empty,
        }
    }

    /// Closes the queue. The tasks that wait stay for the worker; no new one
    /// is taken.
    pub fn close(&mut self)
        ensures
            final(self)@ == (QueueView { closed: true, ..old(self)@ }),
            queue_valid(final(self)@),
    {
        proof {
            use_type_invariant(&*self);
        }
        self.closed = true;
    }
}

} // verus!
