//! The worker: one fetch at a time, from the queue to the feed's status.
//!
//! The worker itself touches neither the network nor the database, and it
//! does not run the parser. It says what is to be done next
//! ([`Fetcher::action`]) and takes what came of it ([`Fetcher::step`]);
//! whoever runs it performs the action in between.

use vstd::prelude::*;

use super::error::FetcherError;
use super::parser::{
    document_view, feed_of, parse_feed, parse_outcome, result_view, Document, FeedView, ParsedFeed,
};
use super::{received, FetchTask, FetcherHandle, QueueView, Received};
use crate::database::models::{FeedId, FeedStatus};
use crate::database::{status_of, well_formed, with_status, FeedTable};

verus! {

/// How many tasks may wait for the worker at once.
pub const QUEUE_CAPACITY: usize = 100;

/// What one fetch attempt came to.
#[derive(Debug)]
pub struct FetchOutcome {
    pub feed_id: FeedId,
    pub url: String,
    pub result: Result<ParsedFeed, FetcherError>,
}

/// Where the worker stands.
#[derive(Debug)]
pub enum WorkerState {
    /// No fetch is in flight: the worker takes the next task.
    Idle,
    /// The request for the task's URL is on its way.
    Requesting(FetchTask),
    /// The origin answered with success: the body is being read.
    Reading(FetchTask),
    /// The attempt is over: its outcome is to be recorded.
    Recording(FetchOutcome),
    /// The queue is closed and drained: the worker has ended.
    Stopped,
}

/// What happened to the action that the worker asked for.
#[derive(Debug)]
pub enum WorkerEvent {
    /// The queue handed over its oldest task.
    Task(FetchTask),
    /// The queue is closed and holds nothing more.
    QueueClosed,
    /// The request failed before any response arrived.
    Unreachable,
    /// A response arrived, with this status code.
    Response(u16),
    /// Reading the body failed.
    BodyFailed,
    /// The body was read to its end: the document that the parser found in
    /// it, or none where the body is no feed.
    Body(Option<Document>),
    /// The outcome was handed to the recorder, whether or not the write went through.
    Recorded,
}

/// What the worker asks for.
#[derive(Debug)]
pub enum WorkerAction<'a> {
    /// Take the next task from the queue, waiting for one if need be.
    Receive,
    /// Send a GET request for the task's URL.
    Get { task: &'a FetchTask },
    /// Read the response body to its end, and parse it.
    ReadBody,
    /// Record the outcome as the feed's status.
    Record { outcome: &'a FetchOutcome },
    /// Nothing: the worker has ended.
    Stop,
}

/// A status code that counts as success: 200 to 299.
pub open spec fn is_success(status: u16) -> bool {
    200 <= status <= 299
}

/// The status that an attempt leaves the feed with.
pub open spec fn status_after(succeeded: bool) -> FeedStatus {
    if succeeded {
        FeedStatus::Fetched
    } else {
        FeedStatus::Failed
    }
}

/// The state of a worker whose fetch of `task` has failed with `error`.
pub open spec fn failed(task: FetchTask, error: FetcherError) -> WorkerState {
    WorkerState::Recording(FetchOutcome { feed_id: task.feed_id, url: task.url, result: Err(error) })
}

/// `after` is the state that follows `before` on `event`.
///
/// Every failure of a fetch in flight leads to the recording of a failed
/// outcome, never to the worker's end. An event that answers no action of the
/// state changes nothing.
pub open spec fn worker_moves(before: WorkerState, event: WorkerEvent, after: WorkerState) -> bool {
    match (before, event) {
        (WorkerState::Idle, WorkerEvent::Task(task)) => after == WorkerState::Requesting(task),
        (WorkerState::Idle, WorkerEvent::QueueClosed) => after == WorkerState::Stopped,
        (WorkerState::Requesting(task), WorkerEvent::Unreachable) => after == failed(
            task,
            FetcherError::Network,
        ),
        (WorkerState::Requesting(task), WorkerEvent::Response(status)) => if is_success(status) {
            after == WorkerState::Reading(task)
        } else {
            after == failed(task, FetcherError::HttpStatus(status))
        },
        (WorkerState::Reading(task), WorkerEvent::BodyFailed) => after == failed(
            task,
            FetcherError::BodyRead,
        ),
        (WorkerState::Reading(task), WorkerEvent::Body(document)) => {
            &&& after matches WorkerState::Recording(outcome)
            &&& outcome.feed_id == task.feed_id
            &&& outcome.url == task.url
            &&& result_view(outcome.result) == parse_outcome(document_view(document))
        },
        (WorkerState::Recording(_), WorkerEvent::Recorded) => after == WorkerState::Idle,
        _ => after == before,
    }
}

/// What was read of a response body.
#[derive(Debug)]
pub enum RetrievedBody {
    /// The body could not be read to its end.
    Unread,
    /// The body was read, and is no feed.
    NoFeed,
    /// The body was read, and the parser found this document in it.
    Feed(Document),
}

/// What an origin answered to one request: the status code, if a response
/// arrived at all, and what was read of the body.
#[derive(Debug)]
pub struct Retrieval {
    pub status: Option<u16>,
    pub body: RetrievedBody,
}

/// What a fetch that the origin answered with `retrieval` comes to. The
/// stages fail in order: no response, a status that is no success, a body cut
/// short, a body that is no feed.
pub open spec fn retrieval_outcome(retrieval: Retrieval) -> Result<FeedView, FetcherError> {
    match retrieval.status {
        None => Err(FetcherError::Network),
        Some(status) => if !is_success(status) {
            Err(FetcherError::HttpStatus(status))
        } else {
            match retrieval.body {
                RetrievedBody::Unread => Err(FetcherError::BodyRead),
                RetrievedBody::NoFeed => Err(FetcherError::Parse),
                RetrievedBody::Feed(document) => Ok(feed_of(document@)),
            }
        },
    }
}

/// `event` answers what a worker in `state` asks for.
pub open spec fn worker_expects(state: WorkerState, event: WorkerEvent) -> bool {
    match state {
        WorkerState::Idle => event is Task || event is QueueClosed,
        WorkerState::Requesting(_) => event is Unreachable || event is Response,
        WorkerState::Reading(_) => event is BodyFailed || event is Body,
        WorkerState::Recording(_) => event is Recorded,
        WorkerState::Stopped => false,
    }
}

/// `action` is what a worker in `state` asks for.
pub open spec fn worker_asks(state: WorkerState, action: WorkerAction) -> bool {
    match (state, action) {
        (WorkerState::Idle, WorkerAction::Receive) => true,
        (WorkerState::Requesting(pending), WorkerAction::Get { task }) => *task == pending,
        (WorkerState::Reading(_), WorkerAction::ReadBody) => true,
        (WorkerState::Recording(pending), WorkerAction::Record { outcome }) => *outcome == pending,
        (WorkerState::Stopped, WorkerAction::Stop) => true,
        _ => false,
    }
}

impl FetchOutcome {
    /// The outcome of the fetch of `task` that gave `result`.
    pub fn new(task: FetchTask, result: Result<ParsedFeed, FetcherError>) -> (outcome: FetchOutcome)
        ensures
            outcome == (FetchOutcome { feed_id: task.feed_id, url: task.url, result }),
    {
        FetchOutcome { feed_id: task.feed_id, url: task.url, result }
    }

    /// The status that this outcome leaves the feed with: `Fetched` for a
    /// parsed document, `Failed` for any failure.
    pub fn status(&self) -> (status: FeedStatus)
        ensures
            status == status_after(self.result is Ok),
    {
        match self.result {
            Ok(_) => FeedStatus::Fetched,
            Err(_) => FeedStatus::Failed,
        }
    }
}

/// Whether `status` counts as success.
pub fn status_is_success(status: u16) -> (success: bool)
    ensures
        success == is_success(status),
{
    200 <= status && status <= 299
}

/// The user agent that every request names: the program and its version.
pub fn user_agent() -> (agent: &'static str)
    ensures
        agent@ == "feedr/0.1.0"@,
{
    "feedr/0.1.0"
}

/// The worker of the fetch pipeline.
pub struct Fetcher {
    state: WorkerState,
}

impl View for Fetcher {
    type V = WorkerState;

    closed spec fn view(&self) -> WorkerState {
        self.state
    }
}

impl Fetcher {
    /// The pipeline at its start: an open, empty queue with room for
    /// `QUEUE_CAPACITY` tasks, and an idle worker to serve it.
    pub fn setup() -> (pipeline: (FetcherHandle, Fetcher))
        ensures
            pipeline.0@ == (QueueView {
                pending: Seq::empty(),
                capacity: QUEUE_CAPACITY as nat,
                closed: false,
            }),
            pipeline.1@ == WorkerState::Idle,
    {
        (FetcherHandle::with_capacity(QUEUE_CAPACITY), Fetcher { state: WorkerState::Idle })
    }

    /// Where the worker stands.
    pub fn state(&self) -> (state: &WorkerState)
        ensures
            *state == self@,
    {
        &self.state
    }

    /// Whether the worker has ended.
    pub fn is_stopped(&self) -> (stopped: bool)
        ensures
            stopped == (self@ is Stopped),
    {
        match self.state {
            WorkerState::Stopped => true,
            _ => false,
        }
    }

    /// What is to be done next.
    pub fn action(&self) -> (action: WorkerAction<'_>)
        ensures
            worker_asks(self@, action),
    {
        match &self.state {
            WorkerState::Idle => WorkerAction::Receive,
            WorkerState::Requesting(task) => WorkerAction::Get { task },
            WorkerState::Reading(_) => WorkerAction::ReadBody,
            WorkerState::Recording(outcome) => WorkerAction::Record { outcome },
            WorkerState::Stopped => WorkerAction::Stop,
        }
    }

    /// Whether `event` answers what the worker asks for. Any other event
    /// would be ignored.
    pub fn expects(&self, event: &WorkerEvent) -> (expected: bool)
        ensures
            expected == worker_expects(self@, *event),
    {
        match self.state {
            WorkerState::Idle => match event {
                WorkerEvent::Task(_) => true,
                WorkerEvent::QueueClosed => true,
                _ => false,
            },
            WorkerState::Requesting(_) => match event {
                WorkerEvent::Unreachable => true,
                WorkerEvent::Response(_) => true,
                _ => false,
            },
            WorkerState::Reading(_) => match event {
                WorkerEvent::BodyFailed => true,
                WorkerEvent::Body(_) => true,
                _ => false,
            },
            WorkerState::Recording(_) => match event {
                WorkerEvent::Recorded => true,
                _ => false,
            },
            WorkerState::Stopped => false,
        }
    }

    /// Concludes the fetch of `task` with `result`: its outcome is to be
    /// recorded next.
    pub fn conclude(task: FetchTask, result: Result<ParsedFeed, FetcherError>) -> (state: WorkerState)
        ensures
            state == WorkerState::Recording(
                FetchOutcome { feed_id: task.feed_id, url: task.url, result },
            ),
    {
        WorkerState::Recording(FetchOutcome::new(task, result))
    }

    /// Takes what came of the action asked for.
    pub fn step(&mut self, event: WorkerEvent)
        ensures
            worker_moves(old(self)@, event, final(self)@),
    {
        let mut state = WorkerState::Idle;
        core::mem::swap(&mut self.state, &mut state);
        let next = match state {
            WorkerState::Idle => match event {
                WorkerEvent::Task(task) => WorkerState::Requesting(task),
                WorkerEvent::QueueClosed => WorkerState::Stopped,
                _ => WorkerState::Idle,
            },
            WorkerState::Requesting(task) => match event {
                WorkerEvent::Unreachable => Self::conclude(task, Err(FetcherError::Network)),
                WorkerEvent::Response(status) => if status_is_success(status) {
                    WorkerState::Reading(task)
                } else {
                    Self::conclude(task, Err(FetcherError::HttpStatus(status)))
                },
                _ => WorkerState::Requesting(task),
            },
            WorkerState::Reading(task) => match event {
                WorkerEvent::BodyFailed => Self::conclude(task, Err(FetcherError::BodyRead)),
                WorkerEvent::Body(document) => Self::conclude(task, parse_feed(document)),
                _ => WorkerState::Reading(task),
            },
            WorkerState::Recording(outcome) => match event {
                WorkerEvent::Recorded => WorkerState::Idle,
                _ => WorkerState::Recording(outcome),
            },
            WorkerState::Stopped => WorkerState::Stopped,
        };
        self.state = next;
    }

    /// Serves the oldest waiting task from its request to the record of its
    /// outcome, with `retrieval` as the origin's answer, and returns the feed
    /// that was served.
    ///
    /// Nothing is served, and nothing changes but the worker's end, where the
    /// worker is not idle or the queue has no task.
    pub fn serve_one(
        &mut self,
        handle: &mut FetcherHandle,
        conn: &mut FeedTable,
        retrieval: Retrieval,
    ) -> (served: Option<FeedId>)
        ensures
            match (old(self)@, received(old(handle)@).1) {
                (WorkerState::Idle, Received::Task(task)) => {
                    &&& served == Some(task.feed_id)
                    &&& final(self)@ is Idle
                    &&& final(handle)@ == received(old(handle)@).0
                    &&& final(conn)@.rows == with_status(
                        old(conn)@.rows,
                        task.feed_id,
                        status_after(retrieval_outcome(retrieval) is Ok),
                    )
                    &&& final(conn)@.next_id == old(conn)@.next_id
                },
                (WorkerState::Idle, Received::Finished) => {
                    &&& served is None
                    &&& final(self)@ is Stopped
                    &&& final(handle)@ == old(handle)@
                    &&& final(conn)@ == old(conn)@
                },
                _ => {
                    &&& served is None
                    &&& final(self)@ == old(self)@
                    &&& final(handle)@ == old(handle)@
                    &&& final(conn)@ == old(conn)@
                },
            },
    {
        match self.state {
            WorkerState::Idle => {},
            _ => {
                return None;
            },
        }
        let task = match handle.receive() {
            Received::Task(task) => task,
            Received::Finished => {
                self.step(WorkerEvent::QueueClosed);
                return None;
            },
            Received::Empty => {
                return None;
            },
        };
        let feed_id = task.feed_id;
        let Retrieval { status, body } = retrieval;
        self.step(WorkerEvent::Task(task));
        match status {
            None => {
                self.step(WorkerEvent::Unreachable);
            },
            Some(status) => {
                self.step(WorkerEvent::Response(status));
                if status_is_success(status) {
                    match body {
                        RetrievedBody::Unread => {
                            self.step(WorkerEvent::BodyFailed);
                        },
                        RetrievedBody::NoFeed => {
                            self.step(WorkerEvent::Body(None));
                        },
                        RetrievedBody::Feed(document) => {
                            self.step(WorkerEvent::Body(Some(document)));
                        },
                    }
                }
            },
        }
        match &self.state {
            WorkerState::Recording(outcome) => {
                Self::record(outcome, conn);
            },
            _ => {},
        }
        self.step(WorkerEvent::Recorded);
        Some(feed_id)
    }

    /// Records a successful fetch: the feed's status becomes `Fetched`.
    ///
    /// Returns how many rows changed: none where the feed is gone, which is
    /// no error.
    pub fn on_fetched(feed_id: FeedId, conn: &mut FeedTable) -> (affected: usize)
        ensures
            final(conn)@.rows == with_status(old(conn)@.rows, feed_id, FeedStatus::Fetched),
            final(conn)@.next_id == old(conn)@.next_id,
            affected == (if status_of(old(conn)@.rows, feed_id) is Some { 1usize } else { 0usize }),
            well_formed(final(conn)@),
    {
        conn.update_status(feed_id, FeedStatus::Fetched)
    }

    /// Records a failed fetch: the feed's status becomes `Failed`.
    ///
    /// Returns how many rows changed: none where the feed is gone, which is
    /// no error.
    pub fn on_failed(feed_id: FeedId, conn: &mut FeedTable) -> (affected: usize)
        ensures
            final(conn)@.rows == with_status(old(conn)@.rows, feed_id, FeedStatus::Failed),
            final(conn)@.next_id == old(conn)@.next_id,
            affected == (if status_of(old(conn)@.rows, feed_id) is Some { 1usize } else { 0usize }),
            well_formed(final(conn)@),
    {
        conn.update_status(feed_id, FeedStatus::Failed)
    }

    /// Records `outcome` as the status of its feed: `Fetched` for a parsed
    /// document, `Failed` for any failure. No other feed changes, and of the
    /// feed nothing but the status.
    pub fn record(outcome: &FetchOutcome, conn: &mut FeedTable) -> (affected: usize)
        ensures
            final(conn)@.rows == with_status(
                old(conn)@.rows,
                outcome.feed_id,
                status_after(outcome.result is Ok),
            ),
            final(conn)@.next_id == old(conn)@.next_id,
            affected == (if status_of(old(conn)@.rows, outcome.feed_id) is Some {
                1usize
            } else {
                0usize
            }),
            well_formed(final(conn)@),
    {
        match outcome.result {
            Ok(_) => Self::on_fetched(outcome.feed_id, conn),
            Err(_) => Self::on_failed(outcome.feed_id, conn),
        }
    }
}

} // verus!
