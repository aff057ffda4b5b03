//! Resolving a URL to its feed, creating the feed where it is missing.
//!
//! The resolution is a small conversation with the store that holds the feed
//! table: look the URL up; if it is missing, insert it; if the insert meets a
//! uniqueness conflict, somebody else created it meanwhile, so look it up
//! again. [`Resolution`] holds the state of that conversation, so that the same
//! rule runs against the in-memory [`FeedTable`] and against a database whose
//! calls are made elsewhere.

use vstd::prelude::*;

use super::models::{Feed, FeedId};
use crate::fetcher::FetchTask;
use super::{inserted, lookup, well_formed, FeedTable, InsertError, TableView};

verus! {

/// What a resolution asks of the store.
#[derive(Clone, Copy, Debug, PartialEq, Eq, Structural)]
pub enum StoreRequest {
    /// Look up the feed with the resolution's URL.
    SelectByUrl,
    /// Insert a `Fetching` feed with the resolution's URL.
    InsertFetching,
}

/// What the store answered, about a row with identifiers of type `Id`.
#[derive(Clone, Copy, Debug, PartialEq, Eq)]
pub enum StoreReply<Id> {
    /// The lookup found the row.
    Found(Id),
    /// The lookup found no row.
    NotFound,
    /// The insert created the row.
    Inserted(Id),
    /// The insert was refused because such a row exists.
    UniqueViolation,
    /// The store failed.
    Failure,
}

/// The store could not resolve the URL.
#[derive(Clone, Copy, Debug, PartialEq, Eq, Structural)]
pub struct StoreFailure;

/// Where a resolution stands.
#[derive(Clone, Copy, Debug, PartialEq, Eq)]
pub enum Resolution<Id> {
    /// Waiting for the answer to a lookup.
    Selecting,
    /// Waiting for the answer to an insert.
    Inserting,
    /// Done: this row is the one asked for.
    Resolved(Id),
    /// Done: the store failed.
    Failed,
}

/// The request that a resolution in `state` is waiting on; none once it is done.
pub open spec fn pending_request<Id>(state: Resolution<Id>) -> Option<StoreRequest> {
    match state {
        Resolution::Selecting => Some(StoreRequest::SelectByUrl),
        Resolution::Inserting => Some(StoreRequest::InsertFetching),
        Resolution::Resolved(_) => None,
        Resolution::Failed => None,
    }
}

/// The state that follows `state` once the store has answered `reply`.
///
/// A uniqueness conflict is no failure: the feed exists, and the next lookup
/// finds it. A reply that does not answer the pending request is a failure.
pub open spec fn resolution_after<Id>(state: Resolution<Id>, reply: StoreReply<Id>) -> Resolution<
    Id,
> {
    match (state, reply) {
        (Resolution::Selecting, StoreReply::Found(id)) => Resolution::Resolved(id),
        (Resolution::Selecting, StoreReply::NotFound) => Resolution::Inserting,
        (Resolution::Inserting, StoreReply::Inserted(id)) => Resolution::Resolved(id),
        (Resolution::Inserting, StoreReply::UniqueViolation) => Resolution::Selecting,
        (Resolution::Resolved(id), _) => Resolution::Resolved(id),
        _ => Resolution::Failed,
    }
}

impl<Id: Copy> Resolution<Id> {
    /// A resolution that has asked nothing yet: it begins with a lookup.
    pub fn start() -> (state: Resolution<Id>)
        ensures
            state == Resolution::<Id>::Selecting,
    {
        Resolution::Selecting
    }

    /// The request to make of the store next; none once the resolution is done.
    pub fn pending(&self) -> (request: Option<StoreRequest>)
        ensures
            request == pending_request(*self),
    {
        match self {
            Resolution::Selecting => Some(StoreRequest::SelectByUrl),
            Resolution::Inserting => Some(StoreRequest::InsertFetching),
            Resolution::Resolved(_) => None,
            Resolution::Failed => None,
        }
    }

    /// Takes the store's answer to the pending request.
    pub fn step(self, reply: StoreReply<Id>) -> (next: Resolution<Id>)
        ensures
            next == resolution_after(self, reply),
    {
        match self {
            Resolution::Selecting => match reply {
                StoreReply::Found(id) => Resolution::Resolved(id),
                StoreReply::NotFound => Resolution::Inserting,
                _ => Resolution::Failed,
            },
            Resolution::Inserting => match reply {
                StoreReply::Inserted(id) => Resolution::Resolved(id),
                StoreReply::UniqueViolation => Resolution::Selecting,
                _ => Resolution::Failed,
            },
            Resolution::Resolved(id) => Resolution::Resolved(id),
            Resolution::Failed => Resolution::Failed,
        }
    }

    /// The feed that the URL resolved to, once the resolution is done.
    pub fn outcome(&self) -> (result: Option<Result<Id, StoreFailure>>)
        ensures
            result == match *self {
                Resolution::Resolved(id) => Some(Ok::<Id, StoreFailure>(id)),
                Resolution::Failed => Some(Err::<Id, StoreFailure>(StoreFailure)),
                _ => None,
            },
    {
        match self {
            Resolution::Resolved(id) => Some(Ok(*id)),
            Resolution::Failed => Some(Err(StoreFailure)),
            _ => None,
        }
    }
}

/// The table after it has served `request` for `url`, and its answer.
pub open spec fn answered(table: TableView, request: StoreRequest, url: Seq<char>) -> (
    TableView,
    StoreReply<FeedId>,
) {
    match request {
        StoreRequest::SelectByUrl => match lookup(table.rows, url) {
            Some(id) => (table, StoreReply::Found(id)),
            None => (table, StoreReply::NotFound),
        },
        StoreRequest::InsertFetching => match inserted(table, url).1 {
            Ok(id) => (inserted(table, url).0, StoreReply::Inserted(id)),
            Err(InsertError::UniqueViolation) => (table, StoreReply::UniqueViolation),
            Err(InsertError::Exhausted) => (table, StoreReply::Failure),
        },
    }
}

/// The table after `url` was resolved against it, and the resolution's result:
/// the feed that holds `url` already, or else a new `Fetching` feed under the
/// table's next identifier.
pub open spec fn resolved(table: TableView, url: Seq<char>) -> (
    TableView,
    Result<FeedId, StoreFailure>,
) {
    match lookup(table.rows, url) {
        Some(id) => (table, Ok(id)),
        None => match inserted(table, url).1 {
            Ok(id) => (inserted(table, url).0, Ok(id)),
            Err(_) => (table, Err(StoreFailure)),
        },
    }
}

impl FeedTable {
    /// Serves one request of a resolution for `url`.
    pub fn answer(&mut self, request: StoreRequest, url: &str) -> (reply: StoreReply<FeedId>)
        ensures
            (final(self)@, reply) == answered(old(self)@, request, url@),
            well_formed(final(self)@),
    {
        match request {
            StoreRequest::SelectByUrl => match self.select_by_url(url) {
                Some(id) => StoreReply::Found(id),
                None => StoreReply::NotFound,
            },
            StoreRequest::InsertFetching => match self.insert_fetching(url) {
                Ok(id) => StoreReply::Inserted(id),
                Err(InsertError::UniqueViolation) => StoreReply::UniqueViolation,
                Err(InsertError::Exhausted) => StoreReply::Failure,
            },
        }
    }
}

/// How far a resolution is from being done.
spec fn steps_left(state: Resolution<FeedId>) -> nat {
    match state {
        Resolution::Selecting => 2,
        Resolution::Inserting => 1,
        _ => 0,
    }
}

impl Feed {
    /// The identifier of the feed for `url`, which is created as `Fetching`
    /// where the table holds none.
    ///
    /// Fails, with the table unchanged, only where a feed would have to be
    /// created and no identifier is left.
    pub fn resolve_or_create(url: &str, conn: &mut FeedTable) -> (result: Result<
        FeedId,
        StoreFailure,
    >)
        ensures
            (final(conn)@, result) == resolved(old(conn)@, url@),
            well_formed(final(conn)@),
    {
        let mut state: Resolution<FeedId> = Resolution::start();
        proof {
            use_type_invariant(&*conn);
        }
        loop
            invariant
                well_formed(conn@),
                match state {
                    Resolution::Selecting => conn@ == old(conn)@,
                    Resolution::Inserting => conn@ == old(conn)@ && lookup(conn@.rows, url@) is None,
                    Resolution::Resolved(id) => (conn@, Ok::<FeedId, StoreFailure>(id)) == resolved(
                        old(conn)@,
                        url@,
                    ),
                    Resolution::Failed => (conn@, Err::<FeedId, StoreFailure>(StoreFailure))
                        == resolved(old(conn)@, url@),
                },
            decreases steps_left(state),
        {
            match state.pending() {
                Some(request) => {
                    let reply = conn.answer(request, url);
                    state = state.step(reply);
                },
                None => {
                    return match state {
                        Resolution::Resolved(id) => Ok(id),
                        _ => Err(StoreFailure),
                    };
                },
            }
        }
    }
}

/// The table after the URLs `urls` were resolved against it one after the
/// other, up to the first that could not be resolved, and the feed of each.
pub open spec fn resolved_each(table: TableView, urls: Seq<Seq<char>>) -> (
    TableView,
    Result<Seq<FeedId>, StoreFailure>,
)
    decreases urls.len(),
{
    if urls.len() == 0 {
        (table, Ok(Seq::empty()))
    } else {
        let (before, earlier) = resolved_each(table, urls.drop_last());
        match earlier {
            Err(_) => (before, Err(StoreFailure)),
            Ok(ids) => match resolved(before, urls.last()).1 {
                Err(_) => (before, Err(StoreFailure)),
                Ok(id) => (resolved(before, urls.last()).0, Ok(ids.push(id))),
            },
        }
    }
}

/// The table after the URLs `urls` were resolved against it as a whole, and
/// the feed of each: either every URL is resolved, one after the other, or
/// the table stays as it was.
pub open spec fn resolved_all(table: TableView, urls: Seq<Seq<char>>) -> (
    TableView,
    Result<Seq<FeedId>, StoreFailure>,
) {
    if resolved_each(table, urls).1 is Ok {
        resolved_each(table, urls)
    } else {
        (table, Err(StoreFailure))
    }
}

/// The texts of `urls`.
pub open spec fn texts(urls: Seq<String>) -> Seq<Seq<char>> {
    urls.map_values(|url: String| url@)
}

/// Once a prefix of the URLs fails to resolve, the whole fails.
pub proof fn lemma_resolved_each_fails(table: TableView, urls: Seq<Seq<char>>, upto: int)
    requires
        0 <= upto <= urls.len(),
        resolved_each(table, urls.take(upto)).1 is Err,
    ensures
        resolved_each(table, urls).1 is Err,
    decreases urls.len() - upto,
{
    if upto < urls.len() {
        assert(urls.take(upto + 1).drop_last() =~= urls.take(upto));
        lemma_resolved_each_fails(table, urls, upto + 1);
    } else {
        assert(urls.take(upto) =~= urls);
    }
}

impl Feed {
    /// Resolves every URL of `urls` in order, as `resolve_or_create` does,
    /// and returns for each the task that fetches its feed.
    ///
    /// All or nothing: where one of the URLs cannot be resolved, the feeds
    /// that were created for the URLs before it are taken back, and the table
    /// is as it was.
    pub fn resolve_all(urls: Vec<String>, conn: &mut FeedTable) -> (result: Result<
        Vec<FetchTask>,
        StoreFailure,
    >)
        ensures
            final(conn)@ == resolved_all(old(conn)@, texts(urls@)).0,
            match result {
                Ok(tasks) => resolved_all(old(conn)@, texts(urls@)).1 matches Ok(ids) && {
                    &&& tasks@.len() == urls@.len()
                    &&& forall|i: int|
                        0 <= i < tasks@.len() ==> #[trigger] tasks@[i] == (FetchTask {
                            feed_id: ids[i],
                            url: urls@[i],
                        })
                },
                Err(_) => resolved_all(old(conn)@, texts(urls@)).1 is Err && final(conn)@ == old(
                    conn,
                )@,
            },
            well_formed(final(conn)@),
    {
        let ghost all = urls@;
        let ghost start = conn@;
        let rows = conn.len();
        let next_id = conn.next_id();
        let mut tasks: Vec<FetchTask> = Vec::new();
        assert(texts(all).take(0) =~= Seq::<Seq<char>>::empty());
        assert(start.rows.take(start.rows.len() as int) =~= start.rows);
        for url in rest: urls
            invariant
                rest.seq() == all,
                well_formed(conn@),
                well_formed(start),
                start == old(conn)@,
                rows == start.rows.len(),
                next_id == start.next_id,
                conn@.rows.len() >= rows,
                conn@.rows.take(rows as int) == start.rows,
                conn@ == resolved_each(start, texts(all).take(rest.index() as int)).0,
                resolved_each(start, texts(all).take(rest.index() as int)).1 matches Ok(ids) && {
                    &&& tasks@.len() == rest.index()
                    &&& ids.len() == rest.index()
                    &&& forall|i: int|
                        0 <= i < tasks@.len() ==> #[trigger] tasks@[i] == (FetchTask {
                            feed_id: ids[i],
                            url: all[i],
                        })
                },
        {
            let ghost done = rest.index() as int;
            let ghost before = conn@;
            proof {
                assert(texts(all).take(done + 1).drop_last() =~= texts(all).take(done));
                assert(texts(all).take(done + 1).last() == url@);
            }
            match Feed::resolve_or_create(url.as_str(), conn) {
                Err(error) => {
                    proof {
                        lemma_resolved_each_fails(start, texts(all), done + 1);
                    }
                    conn.rewind(rows, next_id);
                    return Err(error);
                },
                Ok(feed_id) => {
                    proof {
                        assert(conn@.rows.take(rows as int) =~= before.rows.take(rows as int));
                    }
                    tasks.push(FetchTask { feed_id, url });
                },
            }
        }
        assert(texts(all).take(all.len() as int) =~= texts(all));
        Ok(tasks)
    }
}

} // verus!
