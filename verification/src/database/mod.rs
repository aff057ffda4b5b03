//! The feed table and the rule that keeps one feed per URL.

use vstd::prelude::*;

pub mod folders;
pub mod laws;
pub mod models;
pub mod resolve;

use self::models::{Feed, FeedId, FeedRecord, FeedStatus};

verus! {

/// The feed table as contracts speak of it: its rows in insertion order and
/// the identifier that the next insert will be given.
pub struct TableView {
    pub rows: Seq<FeedRecord>,
    pub next_id: int,
}

/// Some row of `rows` is for `url`.
pub open spec fn has_url(rows: Seq<FeedRecord>, url: Seq<char>) -> bool {
    exists|i: int| 0 <= i < rows.len() && #[trigger] rows[i].url == url
}

/// The identifier of the row for `url`, where there is one.
pub open spec fn lookup(rows: Seq<FeedRecord>, url: Seq<char>) -> Option<FeedId> {
    if has_url(rows, url) {
        let i = choose|i: int| 0 <= i < rows.len() && #[trigger] rows[i].url == url;
        Some(rows[i].id)
    } else {
        None
    }
}

/// How many rows of `rows` are for `url`.
pub open spec fn count_url(rows: Seq<FeedRecord>, url: Seq<char>) -> nat {
    rows.filter(|row: FeedRecord| row.url == url).len()
}

/// The status of the row with identifier `id`, where there is one.
pub open spec fn status_of(rows: Seq<FeedRecord>, id: FeedId) -> Option<FeedStatus> {
    if exists|i: int| 0 <= i < rows.len() && #[trigger] rows[i].id == id {
        let i = choose|i: int| 0 <= i < rows.len() && #[trigger] rows[i].id == id;
        Some(rows[i].status)
    } else {
        None
    }
}

/// What every feed table satisfies: no URL and no identifier occurs twice, and
/// every identifier in use was handed out before `next_id`.
pub open spec fn well_formed(table: TableView) -> bool {
    &&& 1 <= table.next_id <= i32::MAX
    &&& forall|i: int| 0 <= i < table.rows.len() ==> 1 <= (#[trigger] table.rows[i]).id.0 < table.next_id
    &&& forall|i: int, j: int|
        0 <= i < j < table.rows.len() ==> (#[trigger] table.rows[i]).url != (#[trigger] table.rows[j]).url
    &&& forall|i: int, j: int|
        0 <= i < j < table.rows.len() ==> (#[trigger] table.rows[i]).id != (#[trigger] table.rows[j]).id
}

/// In a table without repeated URLs, the row for `url` is the one that `lookup` finds.
pub proof fn lemma_lookup_row(table: TableView, url: Seq<char>, at: int)
    requires
        well_formed(table),
        0 <= at < table.rows.len(),
        table.rows[at].url == url,
    ensures
        lookup(table.rows, url) == Some(table.rows[at].id),
{
    let rows = table.rows;
    let i = choose|i: int| 0 <= i < rows.len() && #[trigger] rows[i].url == url;
    if i < at {
        assert(rows[i].url != rows[at].url);
    } else if at < i {
        assert(rows[at].url != rows[i].url);
    }
}

/// In a table without repeated identifiers, the row with identifier `id` is
/// the one whose status `status_of` gives.
pub proof fn lemma_status_row(table: TableView, id: FeedId, at: int)
    requires
        well_formed(table),
        0 <= at < table.rows.len(),
        table.rows[at].id == id,
    ensures
        status_of(table.rows, id) == Some(table.rows[at].status),
{
    let rows = table.rows;
    let i = choose|i: int| 0 <= i < rows.len() && #[trigger] rows[i].id == id;
    if i < at {
        assert(rows[i].id != rows[at].id);
    } else if at < i {
        assert(rows[at].id != rows[i].id);
    }
}

/// Why an insert into the feed table was refused.
#[derive(Clone, Copy, Debug, PartialEq, Eq, Structural)]
pub enum InsertError {
    /// A row for that URL exists already.
    UniqueViolation,
    /// No identifier is left to give.
    Exhausted,
}

/// The table after an insert of a `Fetching` feed for `url`, and the insert's result.
pub open spec fn inserted(table: TableView, url: Seq<char>) -> (TableView, Result<FeedId, InsertError>) {
    if has_url(table.rows, url) {
        (table, Err(InsertError::UniqueViolation))
    } else if table.next_id >= i32::MAX {
        (table, Err(InsertError::Exhausted))
    } else {
        let id = FeedId(table.next_id as i32);
        let row = FeedRecord { id, url, status: FeedStatus::Fetching };
        (TableView { rows: table.rows.push(row), next_id: table.next_id + 1 }, Ok(id))
    }
}

/// The rows after the status of every row with identifier `id` was set to `status`.
pub open spec fn with_status(rows: Seq<FeedRecord>, id: FeedId, status: FeedStatus) -> Seq<FeedRecord> {
    Seq::new(
        rows.len(),
        |i: int| if rows[i].id == id { FeedRecord { status, ..rows[i] } } else { rows[i] },
    )
}

/// The feed table, held in memory.
pub struct FeedTable {
    feeds: Vec<Feed>,
    next_id: i32,
}

impl View for FeedTable {
    type V = TableView;

    closed spec fn view(&self) -> TableView {
        TableView { rows: self.feeds@.map_values(|feed: Feed| feed@), next_id: self.next_id as int }
    }
}

impl FeedTable {
    #[verifier::type_invariant]
    spec fn inv(&self) -> bool {
        well_formed(self@)
    }

    /// Moves the rows out, leaving a table without rows.
    fn take_feeds(&mut self) -> (feeds: Vec<Feed>)
        ensures
            feeds == old(self).feeds,
            final(self).feeds@.len() == 0,
            final(self).next_id == old(self).next_id,
    {
        proof {
            use_type_invariant(&*self);
        }
        let mut feeds: Vec<Feed> = Vec::new();
        core::mem::swap(&mut self.feeds, &mut feeds);
        feeds
    }

    /// Takes back every insert made since the table had `rows` rows and
    /// `next_id` as its next identifier.
    fn rewind(&mut self, rows: usize, next_id: i32)
        requires
            rows <= old(self)@.rows.len(),
            well_formed(
                TableView { rows: old(self)@.rows.take(rows as int), next_id: next_id as int },
            ),
        ensures
            final(self)@ == (TableView {
                rows: old(self)@.rows.take(rows as int),
                next_id: next_id as int,
            }),
    {
        let ghost before = self@;
        let mut feeds = self.take_feeds();
        feeds.truncate(rows);
        proof {
            assert(feeds@.map_values(|feed: Feed| feed@) =~= before.rows.take(rows as int));
        }
        *self = FeedTable { feeds, next_id };
    }

    /// An empty table whose first feed will get the identifier 1.
    pub fn new() -> (table: FeedTable)
        ensures
            table@.rows.len() == 0,
            table@.next_id == 1,
            well_formed(table@),
    {
        FeedTable { feeds: Vec::new(), next_id: 1 }
    }

    /// An empty table whose first feed will get the identifier `first`.
    pub fn starting_at(first: i32) -> (table: FeedTable)
        requires
            first >= 1,
        ensures
            table@.rows.len() == 0,
            table@.next_id == first,
            well_formed(table@),
    {
        FeedTable { feeds: Vec::new(), next_id: first }
    }

    /// The identifier that the next new feed will get.
    pub fn next_id(&self) -> (next: i32)
        ensures
            next == self@.next_id,
            well_formed(self@),
    {
        proof {
            use_type_invariant(self);
        }
        self.next_id
    }

    /// The number of feeds.
    pub fn len(&self) -> (n: usize)
        ensures
            n == self@.rows.len(),
    {
        self.feeds.len()
    }

    /// The identifier of the feed for `url`, where the table holds one.
    pub fn select_by_url(&self, url: &str) -> (found: Option<FeedId>)
        ensures
            found == lookup(self@.rows, url@),
            well_formed(self@),
    {
        proof {
            use_type_invariant(self);
        }
        let wanted = url.to_owned();
        let mut i: usize = 0;
        while i < self.feeds.len()
            invariant
                i <= self.feeds.len(),
                wanted@ == url@,
                well_formed(self@),
                forall|j: int| 0 <= j < i ==> (#[trigger] self@.rows[j]).url != url@,
            decreases self.feeds.len() - i,
        {
            if self.feeds[i].url == wanted {
                proof {
                    lemma_lookup_row(self@, url@, i as int);
                }
                return Some(self.feeds[i].id);
            }
            i += 1;
        }
        None
    }

    /// Inserts a `Fetching` feed for `url` under the next identifier.
    ///
    /// Refused, with the table unchanged, where a feed for `url` exists or no
    /// identifier is left.
    pub fn insert_fetching(&mut self, url: &str) -> (result: Result<FeedId, InsertError>)
        ensures
            (final(self)@, result) == inserted(old(self)@, url@),
            well_formed(final(self)@),
    {
        proof {
            use_type_invariant(&*self);
        }
        if self.select_by_url(url).is_some() {
            return Err(InsertError::UniqueViolation);
        }
        if self.next_id == i32::MAX {
            return Err(InsertError::Exhausted);
        }
        let id = FeedId(self.next_id);
        let feed = Feed { id, url: url.to_owned(), status: FeedStatus::Fetching };
        let ghost before = self@;
        let next_id = self.next_id + 1;
        let mut feeds = self.take_feeds();
        feeds.push(feed);
        proof {
            assert(feeds@.map_values(|feed: Feed| feed@) =~= before.rows.push(feed@));
            assert(forall|i: int| 0 <= i < before.rows.len() ==> (#[trigger] before.rows[i]).url != url@);
        }
        *self = FeedTable { feeds, next_id };
        Ok(id)
    }

    /// Sets the status of the feed with identifier `id`, and says how many
    /// rows that changed: one, or none where the table holds no such feed.
    pub fn update_status(&mut self, id: FeedId, status: FeedStatus) -> (affected: usize)
        ensures
            final(self)@.rows == with_status(old(self)@.rows, id, status),
            final(self)@.next_id == old(self)@.next_id,
            affected == (if status_of(old(self)@.rows, id) is Some { 1usize } else { 0usize }),
            well_formed(final(self)@),
    {
        proof {
            use_type_invariant(&*self);
        }
        let ghost before = self@;
        let mut i: usize = 0;
        while i < self.feeds.len()
            invariant
                i <= self.feeds.len(),
                self@ == before,
                before == old(self)@,
                well_formed(before),
                forall|j: int| 0 <= j < i ==> (#[trigger] before.rows[j]).id != id,
            decreases self.feeds.len() - i,
        {
            if self.feeds[i].id == id {
                let feed = Feed { id, url: self.feeds[i].url.clone(), status };
                let next_id = self.next_id;
                let mut feeds = self.take_feeds();
                feeds.set(i, feed);
                proof {
                    lemma_status_row(before, id, i as int);
                    assert(feeds@.map_values(|feed: Feed| feed@) =~= with_status(before.rows, id, status));
                }
                *self = FeedTable { feeds, next_id };
                return 1;
            }
            i += 1;
        }
        proof {
            assert(self@.rows =~= with_status(before.rows, id, status));
        }
        0
    }

    /// The status of the feed with identifier `id`, where the table holds one.
    pub fn status(&self, id: FeedId) -> (found: Option<FeedStatus>)
        ensures
            found == status_of(self@.rows, id),
            well_formed(self@),
    {
        proof {
            use_type_invariant(self);
        }
        let mut i: usize = 0;
        while i < self.feeds.len()
            invariant
                i <= self.feeds.len(),
                well_formed(self@),
                forall|j: int| 0 <= j < i ==> (#[trigger] self@.rows[j]).id != id,
            decreases self.feeds.len() - i,
        {
            if self.feeds[i].id == id {
                proof {
                    lemma_status_row(self@, id, i as int);
                }
                return Some(self.feeds[i].status);
            }
            i += 1;
        }
        None
    }
}

} // verus!
