//! Why a fetch failed, and why a task could not be handed over.

use vstd::prelude::*;

verus! {

/// Why a fetch attempt failed. None of these stops the worker: each ends in
/// the feed's status `Failed`.
#[derive(Clone, Copy, Debug, PartialEq, Eq, Structural)]
pub enum FetcherError {
    /// The origin could not be reached.
    Network,
    /// The origin answered with a status outside 200..=299.
    HttpStatus(u16),
    /// The response body could not be read to its end.
    BodyRead,
    /// The body is no syndication document.
    Parse,
}

/// The queue is closed for good: nobody will take the task.
#[derive(Clone, Copy, Debug, PartialEq, Eq, Structural)]
pub struct DispatchError;

impl FetcherError {
    /// What went wrong, in words.
    pub fn message(&self) -> (text: &'static str)
        ensures
            text@ == fetcher_error_text(*self),
    {
        match self {
            FetcherError::Network => "could not reach server",
            FetcherError::HttpStatus(_) => "server returned an error",
            FetcherError::BodyRead => "could not access request body",
            FetcherError::Parse => "could not parse feed",
        }
    }
}

/// The words for each failure.
pub open spec fn fetcher_error_text(error: FetcherError) -> Seq<char> {
    match error {
        FetcherError::Network => "could not reach server"@,
        FetcherError::HttpStatus(_) => "server returned an error"@,
        FetcherError::BodyRead => "could not access request body"@,
        FetcherError::Parse => "could not parse feed"@,
    }
}

impl DispatchError {
    /// What went wrong, in words.
    pub fn message(&self) -> (text: &'static str)
        ensures
            text@ == "could not send fetch task to executor"@,
    {
        "could not send fetch task to executor"
    }
}

} // verus!
