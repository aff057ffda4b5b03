//! Rows of the persisted tables and their identifiers.

use vstd::prelude::*;

use crate::text::same_text;

verus! {

/// Identifier of a persisted feed.
#[derive(Clone, Copy, Debug, PartialEq, Eq, Hash, Structural)]
pub struct FeedId(pub i32);

/// Identifier of a user.
#[derive(Clone, Copy, Debug, PartialEq, Eq, Hash, Structural)]
pub struct UserId(pub i32);

/// Identifier of a user's subscription to a feed.
#[derive(Clone, Copy, Debug, PartialEq, Eq, Hash, Structural)]
pub struct UserFeedId(pub i32);

/// Identifier of a folder in which a user files subscriptions.
#[derive(Clone, Copy, Debug, PartialEq, Eq, Hash, Structural)]
pub struct UserFeedFolderId(pub i32);

/// Outcome of the most recent fetch attempt for a feed.
///
/// A feed is created as `Fetching`; each completed attempt leaves it
/// `Fetched` or `Failed`, whatever it was before.
#[derive(Clone, Copy, Debug, PartialEq, Eq, Hash, Structural)]
pub enum FeedStatus {
    Fetching,
    Fetched,
    Failed,
}

/// The text under which a status is persisted and shown.
pub open spec fn status_text(status: FeedStatus) -> Seq<char> {
    match status {
        FeedStatus::Fetching => "fetching"@,
        FeedStatus::Fetched => "ok"@,
        FeedStatus::Failed => "failed"@,
    }
}

impl FeedStatus {
    /// The persisted text of this status.
    pub fn as_str(&self) -> (text: &'static str)
        ensures
            text@ == status_text(*self),
    {
        match self {
            FeedStatus::Fetching => "fetching",
            FeedStatus::Fetched => "ok",
            FeedStatus::Failed => "failed",
        }
    }
}

/// The status that is persisted as `text`, if `text` is the text of one.
pub open spec fn status_of_text(text: Seq<char>) -> Option<FeedStatus> {
    if text == status_text(FeedStatus::Fetching) {
        Some(FeedStatus::Fetching)
    } else if text == status_text(FeedStatus::Fetched) {
        Some(FeedStatus::Fetched)
    } else if text == status_text(FeedStatus::Failed) {
        Some(FeedStatus::Failed)
    } else {
        None
    }
}

/// Reading a status back from its persisted text gives the status.
pub proof fn lemma_status_text_round_trip(status: FeedStatus)
    ensures
        status_of_text(status_text(status)) == Some(status),
{
    reveal_strlit("fetching");
    reveal_strlit("ok");
    reveal_strlit("failed");
    assert("fetching"@.len() != "ok"@.len());
    assert("fetching"@.len() != "failed"@.len());
    assert("ok"@.len() != "failed"@.len());
}

impl FeedStatus {
    /// The status that is persisted as `text`; none where `text` is not the
    /// text of a status.
    pub fn parse(text: &str) -> (status: Option<FeedStatus>)
        ensures
            status == status_of_text(text@),
    {
        if same_text(text, "fetching") {
            Some(FeedStatus::Fetching)
        } else if same_text(text, "ok") {
            Some(FeedStatus::Fetched)
        } else if same_text(text, "failed") {
            Some(FeedStatus::Failed)
        } else {
            None
        }
    }
}

/// A persisted feed: a remote document followed under one URL.
#[derive(Clone, Debug)]
pub struct Feed {
    pub id: FeedId,
    pub url: String,
    pub status: FeedStatus,
}

/// A feed as contracts speak of it.
pub struct FeedRecord {
    pub id: FeedId,
    pub url: Seq<char>,
    pub status: FeedStatus,
}

impl View for Feed {
    type V = FeedRecord;

    open spec fn view(&self) -> FeedRecord {
        FeedRecord { id: self.id, url: self.url@, status: self.status }
    }
}

/// A user of the service.
#[derive(Clone, Debug)]
pub struct User {
    pub id: UserId,
    pub username: String,
    /// The hash of the user's password, for users who log in with one.
    pub basic_secret: Option<String>,
    pub dauth_secret: Option<String>,
}

} // verus!
