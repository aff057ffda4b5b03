//! What holds of resolving URLs against the feed table, whatever the table
//! held before and in whatever order several callers are served.

use vstd::prelude::*;

use super::models::FeedId;
use super::resolve::{
    answered, pending_request, resolution_after, resolved, resolved_all, resolved_each,
    Resolution,
};
use super::{count_url, has_url, inserted, lemma_lookup_row, lookup, well_formed, TableView};

verus! {

/// An insert keeps the table well formed, and a feed that it created is the
/// one that a lookup of its URL finds afterwards.
pub proof fn lemma_inserted(table: TableView, url: Seq<char>)
    requires
        well_formed(table),
    ensures
        well_formed(inserted(table, url).0),
        inserted(table, url).1 matches Ok(id) ==> {
            &&& !has_url(table.rows, url)
            &&& id.0 == table.next_id
            &&& lookup(inserted(table, url).0.rows, url) == Some(id)
        },
        inserted(table, url).1 is Err ==> inserted(table, url).0 == table,
{
    let (after, result) = inserted(table, url);
    if let Ok(id) = result {
        let at = table.rows.len() as int;
        assert(after.rows[at].url == url);
        assert forall|i: int, j: int| 0 <= i < j < after.rows.len() implies (#[trigger] after.rows[i]).url
            != (#[trigger] after.rows[j]).url by {
            if j == at {
                assert(table.rows[i].url != url);
            }
        }
        assert forall|i: int, j: int| 0 <= i < j < after.rows.len() implies (#[trigger] after.rows[i]).id
            != (#[trigger] after.rows[j]).id by {
            if j == at {
                assert(table.rows[i].id.0 < table.next_id);
            }
        }
        lemma_lookup_row(after, url, at);
    }
}

/// A well-formed table holds each URL at most once: once where a lookup finds
/// it, and not at all where it does not.
pub proof fn lemma_count_url(table: TableView, url: Seq<char>)
    requires
        well_formed(table),
    ensures
        count_url(table.rows, url) == (if lookup(table.rows, url) is Some { 1nat } else { 0nat }),
    decreases table.rows.len(),
{
    reveal(Seq::filter);
    let rows = table.rows;
    if rows.len() > 0 {
        let front = TableView { rows: rows.drop_last(), next_id: table.next_id };
        assert forall|i: int| 0 <= i < front.rows.len() implies front.rows[i] == rows[i] by {}
        lemma_count_url(front, url);
        let last = rows.len() - 1;
        if rows[last].url == url {
            if has_url(front.rows, url) {
                let i = choose|i: int| 0 <= i < front.rows.len() && #[trigger] front.rows[i].url == url;
                assert(rows[i].url != rows[last].url);
            }
        } else {
            if has_url(rows, url) {
                let i = choose|i: int| 0 <= i < rows.len() && #[trigger] rows[i].url == url;
                assert(front.rows[i].url == url);
            }
            if has_url(front.rows, url) {
                let i = choose|i: int| 0 <= i < front.rows.len() && #[trigger] front.rows[i].url == url;
                assert(rows[i].url == url);
            }
        }
    }
}

/// Resolving keeps the table well formed, and the feed that it returns is the
/// one that a lookup of the URL finds afterwards.
pub proof fn lemma_resolved(table: TableView, url: Seq<char>)
    requires
        well_formed(table),
    ensures
        well_formed(resolved(table, url).0),
        resolved(table, url).1 matches Ok(id) ==> lookup(resolved(table, url).0.rows, url) == Some(id),
        resolved(table, url).1 is Err ==> resolved(table, url).0 == table,
        table.next_id < i32::MAX ==> resolved(table, url).1 is Ok,
{
    lemma_inserted(table, url);
}

/// In a well-formed table no feed holds two URLs.
pub proof fn lemma_lookup_injective(table: TableView, first: Seq<char>, second: Seq<char>)
    requires
        well_formed(table),
        lookup(table.rows, first) is Some,
        lookup(table.rows, first) == lookup(table.rows, second),
    ensures
        first == second,
{
    let rows = table.rows;
    let i = choose|i: int| 0 <= i < rows.len() && #[trigger] rows[i].url == first;
    let j = choose|j: int| 0 <= j < rows.len() && #[trigger] rows[j].url == second;
    if i < j {
        assert(rows[i].id != rows[j].id);
    } else if j < i {
        assert(rows[j].id != rows[i].id);
    }
}

/// A feed that a lookup found is still found after any other URL was resolved.
pub proof fn lemma_resolved_keeps(table: TableView, url: Seq<char>, other: Seq<char>)
    requires
        well_formed(table),
        lookup(table.rows, url) is Some,
    ensures
        lookup(resolved(table, other).0.rows, url) == lookup(table.rows, url),
{
    let after = resolved(table, other).0;
    lemma_resolved(table, other);
    let i = choose|i: int| 0 <= i < table.rows.len() && #[trigger] table.rows[i].url == url;
    lemma_lookup_row(table, url, i);
    assert(after.rows[i] == table.rows[i]);
    lemma_lookup_row(after, url, i);
}

/// Resolving two different URLs, one after the other, gives two different feeds.
pub proof fn lemma_distinct_urls_distinct_ids(table: TableView, first: Seq<char>, second: Seq<char>)
    requires
        well_formed(table),
        first != second,
    ensures
        ({
            let (between, a) = resolved(table, first);
            let (after, b) = resolved(between, second);
            a is Ok && b is Ok ==> a != b
        }),
{
    let (between, a) = resolved(table, first);
    let (after, b) = resolved(between, second);
    lemma_resolved(table, first);
    lemma_resolved(between, second);
    if a is Ok && b is Ok {
        lemma_resolved_keeps(between, first, second);
        if a == b {
            lemma_lookup_injective(after, first, second);
        }
    }
}

/// Resolving the same URL twice gives the same feed both times: the second
/// call changes nothing, and the table holds exactly one feed for the URL.
pub proof fn lemma_resolve_twice(table: TableView, url: Seq<char>)
    requires
        well_formed(table),
    ensures
        ({
            let (between, a) = resolved(table, url);
            let (after, b) = resolved(between, url);
            a is Ok ==> b == a && after == between && count_url(after.rows, url) == 1
        }),
{
    let (between, a) = resolved(table, url);
    lemma_resolved(table, url);
    lemma_count_url(between, url);
}

/// Resolving URLs one after the other keeps the table well formed and gives
/// every URL the feed that the table holds for it afterwards.
proof fn lemma_resolved_each(table: TableView, urls: Seq<Seq<char>>)
    requires
        well_formed(table),
    ensures
        well_formed(resolved_each(table, urls).0),
        resolved_each(table, urls).1 matches Ok(ids) ==> {
            &&& ids.len() == urls.len()
            &&& forall|i: int|
                0 <= i < urls.len() ==> lookup(resolved_each(table, urls).0.rows, #[trigger] urls[i])
                    == Some(ids[i])
        },
    decreases urls.len(),
{
    if urls.len() > 0 {
        let front = urls.drop_last();
        lemma_resolved_each(table, front);
        let (before, earlier) = resolved_each(table, front);
        if let Ok(ids) = earlier {
            lemma_resolved(before, urls.last());
            let (after, all) = resolved_each(table, urls);
            if let Ok(all_ids) = all {
                assert forall|i: int| 0 <= i < urls.len() implies lookup(after.rows, #[trigger] urls[i])
                    == Some(all_ids[i]) by {
                    if i < front.len() {
                        assert(front[i] == urls[i]);
                        lemma_resolved_keeps(before, urls[i], urls.last());
                    }
                }
            }
        }
    }
}

/// Resolving a list of URLs as a whole keeps the table well formed. Where it
/// succeeds, every URL has the feed that the table holds for it afterwards:
/// a URL that stands in the list twice gets the same feed both times, and two
/// different URLs get two different feeds. Where it fails, the table is as it
/// was: nothing of the list stays behind.
pub proof fn lemma_resolved_all(table: TableView, urls: Seq<Seq<char>>)
    requires
        well_formed(table),
    ensures
        well_formed(resolved_all(table, urls).0),
        resolved_all(table, urls).1 is Err ==> resolved_all(table, urls).0 == table,
        resolved_all(table, urls).1 matches Ok(ids) ==> {
            &&& ids.len() == urls.len()
            &&& forall|i: int|
                0 <= i < urls.len() ==> lookup(resolved_all(table, urls).0.rows, #[trigger] urls[i])
                    == Some(ids[i])
            &&& forall|i: int, j: int|
                0 <= i < urls.len() && 0 <= j < urls.len() ==> (#[trigger] urls[i] == #[trigger] urls[j]
                    <==> ids[i] == ids[j])
        },
{
    lemma_resolved_each(table, urls);
    let (after, all) = resolved_all(table, urls);
    if let Ok(ids) = all {
        assert forall|i: int, j: int| 0 <= i < urls.len() && 0 <= j < urls.len() implies (
        #[trigger] urls[i] == #[trigger] urls[j] <==> ids[i] == ids[j]) by {
            if ids[i] == ids[j] {
                lemma_lookup_injective(after, urls[i], urls[j]);
            }
        }
    }
}

/// One caller that resolves `url`: what it has heard from the store so far.
pub struct Caller {
    pub url: Seq<char>,
    pub state: Resolution<FeedId>,
}

/// The table and the caller after the store has served the caller's pending
/// request. A caller that is done asks nothing more.
pub open spec fn served(table: TableView, caller: Caller) -> (TableView, Caller) {
    match pending_request(caller.state) {
        Some(request) => {
            let (after, reply) = answered(table, request, caller.url);
            (after, Caller { url: caller.url, state: resolution_after(caller.state, reply) })
        },
        None => (table, caller),
    }
}

/// The table and the callers after the store has served one request at a
/// time in the order of `schedule`, which names the caller served at each turn.
pub open spec fn interleaved(table: TableView, callers: Seq<Caller>, schedule: Seq<int>) -> (
    TableView,
    Seq<Caller>,
)
    decreases schedule.len(),
{
    if schedule.len() == 0 {
        (table, callers)
    } else {
        let (before, waiting) = interleaved(table, callers, schedule.drop_last());
        let turn = schedule.last();
        if 0 <= turn < waiting.len() {
            let (after, caller) = served(before, waiting[turn]);
            (after, waiting.update(turn, caller))
        } else {
            (before, waiting)
        }
    }
}

/// `count` callers that are about to resolve `url`.
pub open spec fn callers_of(url: Seq<char>, count: nat) -> Seq<Caller> {
    Seq::new(count, |i: int| Caller { url, state: Resolution::Selecting })
}

/// Every caller of `callers` resolves `url`, and each one that has its feed
/// has the feed that the table holds for `url`.
pub open spec fn callers_agree(table: TableView, callers: Seq<Caller>, url: Seq<char>) -> bool {
    forall|i: int|
        0 <= i < callers.len() ==> {
            &&& (#[trigger] callers[i]).url == url
            &&& callers[i].state matches Resolution::Resolved(id) ==> lookup(table.rows, url) == Some(id)
        }
}

/// No caller of `callers` has failed, and the table can still create the feed
/// for `url` unless it holds it already.
pub open spec fn callers_unfailed(table: TableView, callers: Seq<Caller>, url: Seq<char>) -> bool {
    &&& lookup(table.rows, url) is Some || table.next_id < i32::MAX
    &&& forall|i: int| 0 <= i < callers.len() ==> !((#[trigger] callers[i]).state is Failed)
}

/// Serving one caller keeps the table well formed and the callers in agreement.
proof fn lemma_served_agree(table: TableView, callers: Seq<Caller>, url: Seq<char>, turn: int)
    requires
        well_formed(table),
        callers_agree(table, callers, url),
        0 <= turn < callers.len(),
    ensures
        well_formed(served(table, callers[turn]).0),
        callers_agree(
            served(table, callers[turn]).0,
            callers.update(turn, served(table, callers[turn]).1),
            url,
        ),
        callers_unfailed(table, callers, url) ==> callers_unfailed(
            served(table, callers[turn]).0,
            callers.update(turn, served(table, callers[turn]).1),
            url,
        ),
{
    let (after, caller) = served(table, callers[turn]);
    let waiting = callers.update(turn, caller);
    assert(callers[turn].url == url);
    lemma_inserted(table, url);
    assert forall|i: int| 0 <= i < waiting.len() implies {
        &&& (#[trigger] waiting[i]).url == url
        &&& waiting[i].state matches Resolution::Resolved(id) ==> lookup(after.rows, url) == Some(id)
    } by {
        if i != turn {
            assert(waiting[i] == callers[i]);
            assert(callers[i].url == url);
        }
    }
    if callers_unfailed(table, callers, url) {
        assert forall|i: int| 0 <= i < waiting.len() implies !((#[trigger] waiting[i]).state is Failed) by {
            if i != turn {
                assert(waiting[i] == callers[i]);
            } else {
                assert(!(callers[turn].state is Failed));
            }
        }
    }
}

/// However the store interleaves the requests of any number of callers that
/// resolve the same URL, every caller that gets a feed gets the same one, and
/// once any of them has it the table holds exactly one feed for the URL. No
/// caller fails as long as the table had an identifier left at the start.
pub proof fn lemma_concurrent_callers_agree(
    table: TableView,
    url: Seq<char>,
    count: nat,
    schedule: Seq<int>,
)
    requires
        well_formed(table),
    ensures
        ({
            let (after, callers) = interleaved(table, callers_of(url, count), schedule);
            &&& well_formed(after)
            &&& callers.len() == count
            &&& count_url(after.rows, url) <= 1
            &&& forall|i: int|
                0 <= i < count ==> ((#[trigger] callers[i]).state matches Resolution::Resolved(id) ==> {
                    &&& lookup(after.rows, url) == Some(id)
                    &&& count_url(after.rows, url) == 1
                })
            &&& forall|i: int, j: int|
                0 <= i < count && 0 <= j < count && (#[trigger] callers[i]).state is Resolved && (
                #[trigger] callers[j]).state is Resolved ==> callers[i].state == callers[j].state
            &&& table.next_id < i32::MAX ==> forall|i: int|
                0 <= i < count ==> !((#[trigger] callers[i]).state is Failed)
        }),
{
    lemma_interleaved(table, url, count, schedule);
    let (after, callers) = interleaved(table, callers_of(url, count), schedule);
    lemma_count_url(after, url);
}

/// The invariant of an interleaving.
proof fn lemma_interleaved(table: TableView, url: Seq<char>, count: nat, schedule: Seq<int>)
    requires
        well_formed(table),
    ensures
        ({
            let (after, callers) = interleaved(table, callers_of(url, count), schedule);
            &&& well_formed(after)
            &&& callers.len() == count
            &&& callers_agree(after, callers, url)
            &&& table.next_id < i32::MAX ==> callers_unfailed(after, callers, url)
        }),
    decreases schedule.len(),
{
    if schedule.len() > 0 {
        lemma_interleaved(table, url, count, schedule.drop_last());
        let (before, waiting) = interleaved(table, callers_of(url, count), schedule.drop_last());
        let turn = schedule.last();
        if 0 <= turn < waiting.len() {
            lemma_served_agree(before, waiting, url, turn);
        }
    }
}

/// How often `schedule` names the caller `caller`.
pub open spec fn turns_of(schedule: Seq<int>, caller: int) -> nat
    decreases schedule.len(),
{
    if schedule.len() == 0 {
        0
    } else {
        turns_of(schedule.drop_last(), caller) + (if schedule.last() == caller {
            1nat
        } else {
            0nat
        })
    }
}

/// Whether a resolution is done.
pub open spec fn is_done(state: Resolution<FeedId>) -> bool {
    state is Resolved || state is Failed
}

/// How far a caller that was served `turns` times has come at least.
spec fn on_schedule(table: TableView, caller: Caller, turns: nat) -> bool {
    if turns == 0 {
        caller.state is Selecting
    } else if turns == 1 {
        caller.state is Resolved || caller.state is Inserting
    } else if turns == 2 {
        is_done(caller.state) || (caller.state is Selecting && lookup(table.rows, caller.url) is Some)
    } else {
        is_done(caller.state)
    }
}

/// Serving any caller keeps the feed of `url`, once the table holds it.
proof fn lemma_served_keeps(table: TableView, caller: Caller, url: Seq<char>)
    requires
        well_formed(table),
        lookup(table.rows, url) is Some,
    ensures
        lookup(served(table, caller).0.rows, url) == lookup(table.rows, url),
{
    lemma_inserted(table, caller.url);
    let after = served(table, caller).0;
    let i = choose|i: int| 0 <= i < table.rows.len() && #[trigger] table.rows[i].url == url;
    lemma_lookup_row(table, url, i);
    if after != table {
        assert(after.rows[i] == table.rows[i]);
        lemma_lookup_row(after, url, i);
    }
}

/// The progress of every caller along an interleaving.
proof fn lemma_progress(table: TableView, url: Seq<char>, count: nat, schedule: Seq<int>)
    requires
        well_formed(table),
    ensures
        ({
            let (after, callers) = interleaved(table, callers_of(url, count), schedule);
            &&& well_formed(after)
            &&& callers.len() == count
            &&& forall|i: int|
                0 <= i < count ==> (#[trigger] callers[i]).url == url && on_schedule(
                    after,
                    callers[i],
                    turns_of(schedule, i),
                )
        }),
    decreases schedule.len(),
{
    if schedule.len() > 0 {
        let front = schedule.drop_last();
        lemma_progress(table, url, count, front);
        lemma_interleaved(table, url, count, front);
        let (before, waiting) = interleaved(table, callers_of(url, count), front);
        let (after, callers) = interleaved(table, callers_of(url, count), schedule);
        let turn = schedule.last();
        if 0 <= turn < waiting.len() {
            lemma_served_agree(before, waiting, url, turn);
            lemma_inserted(before, url);
            assert(waiting[turn].url == url);
            assert forall|i: int| 0 <= i < count implies (#[trigger] callers[i]).url == url
                && on_schedule(after, callers[i], turns_of(schedule, i)) by {
                assert(waiting[i].url == url);
                if i != turn {
                    assert(callers[i] == waiting[i]);
                    if lookup(before.rows, url) is Some {
                        lemma_served_keeps(before, waiting[turn], url);
                    }
                }
            }
        } else {
            assert forall|i: int| 0 <= i < count implies (#[trigger] callers[i]).url == url
                && on_schedule(after, callers[i], turns_of(schedule, i)) by {
                assert(callers[i] == waiting[i]);
            }
        }
    }
}

/// However the store interleaves the requests of callers that resolve the
/// same URL, a caller is done once it was served three times: no caller is
/// kept waiting by the others.
pub proof fn lemma_callers_finish(table: TableView, url: Seq<char>, count: nat, schedule: Seq<int>)
    requires
        well_formed(table),
    ensures
        ({
            let (after, callers) = interleaved(table, callers_of(url, count), schedule);
            forall|i: int|
                0 <= i < count && turns_of(schedule, i) >= 3 ==> is_done((#[trigger] callers[i]).state)
        }),
{
    lemma_progress(table, url, count, schedule);
}

} // verus!
