use feedr::database::models::{Feed, FeedId, FeedStatus, UserFeedFolderId};
use feedr::database::resolve::{Resolution, StoreFailure, StoreReply, StoreRequest};
use feedr::database::{FeedTable, InsertError};

#[test]
fn distinct_urls_get_distinct_ids() {
    let mut table = FeedTable::new();
    let a = Feed::resolve_or_create("https://example.com/a.xml", &mut table).unwrap();
    let b = Feed::resolve_or_create("https://example.com/b.xml", &mut table).unwrap();
    assert_ne!(a, b);
    assert_eq!(a, FeedId(1));
    assert_eq!(b, FeedId(2));
    assert_eq!(table.len(), 2);
}

#[test]
fn same_url_resolves_to_the_same_id() {
    let mut table = FeedTable::new();
    let first = Feed::resolve_or_create("https://example.com/feed.xml", &mut table).unwrap();
    let second = Feed::resolve_or_create("https://example.com/feed.xml", &mut table).unwrap();
    assert_eq!(first, second);
    assert_eq!(table.len(), 1);
    assert_eq!(table.select_by_url("https://example.com/feed.xml"), Some(first));
}

#[test]
fn urls_are_compared_without_normalization() {
    let mut table = FeedTable::new();
    let plain = Feed::resolve_or_create("https://example.com/feed", &mut table).unwrap();
    let slash = Feed::resolve_or_create("https://example.com/feed/", &mut table).unwrap();
    let upper = Feed::resolve_or_create("https://EXAMPLE.com/feed", &mut table).unwrap();
    assert_ne!(plain, slash);
    assert_ne!(plain, upper);
    assert_ne!(slash, upper);
    assert_eq!(table.len(), 3);
}

#[test]
fn created_feed_is_fetching() {
    let mut table = FeedTable::new();
    let id = Feed::resolve_or_create("https://example.com/feed.xml", &mut table).unwrap();
    assert_eq!(table.status(id), Some(FeedStatus::Fetching));
    assert_eq!(FeedStatus::Fetching.as_str(), "fetching");
}

#[test]
fn interleaved_callers_agree_on_one_feed() {
    let url = "https://example.com/feed.xml";
    let mut table = FeedTable::new();
    let mut callers: Vec<Resolution<FeedId>> = vec![Resolution::start(); 5];
    // Every caller looks the URL up before any of them inserts it.
    for caller in callers.iter_mut() {
        let request = caller.pending().unwrap();
        assert_eq!(request, StoreRequest::SelectByUrl);
        *caller = caller.step(table.answer(request, url));
        assert_eq!(*caller, Resolution::Inserting);
    }
    // Then each one runs to its end, in reverse order.
    for caller in callers.iter_mut().rev() {
        while let Some(request) = caller.pending() {
            *caller = caller.step(table.answer(request, url));
        }
    }
    for caller in &callers {
        assert_eq!(caller.outcome(), Some(Ok(FeedId(1))));
    }
    assert_eq!(table.len(), 1);
}

#[test]
fn conflict_on_insert_leads_to_a_second_lookup() {
    let state: Resolution<FeedId> = Resolution::start();
    assert_eq!(state.pending(), Some(StoreRequest::SelectByUrl));
    let state = state.step(StoreReply::NotFound);
    assert_eq!(state.pending(), Some(StoreRequest::InsertFetching));
    let state = state.step(StoreReply::UniqueViolation);
    assert_eq!(state, Resolution::Selecting);
    assert_eq!(state.outcome(), None);
    let state = state.step(StoreReply::Found(FeedId(9)));
    assert_eq!(state, Resolution::Resolved(FeedId(9)));
    assert_eq!(state.pending(), None);
    assert_eq!(state.outcome(), Some(Ok(FeedId(9))));
    assert_eq!(state.step(StoreReply::Failure), Resolution::Resolved(FeedId(9)));
}

#[test]
fn store_failure_ends_the_resolution() {
    let failed: Resolution<FeedId> = Resolution::Failed;
    assert_eq!(Resolution::<FeedId>::start().step(StoreReply::Failure), failed);
    assert_eq!(Resolution::<FeedId>::Inserting.step(StoreReply::Failure), failed);
    assert_eq!(Resolution::Selecting.step(StoreReply::Inserted(FeedId(1))), failed);
    assert_eq!(Resolution::Inserting.step(StoreReply::Found(FeedId(1))), failed);
    assert_eq!(failed.outcome(), Some(Err(StoreFailure)));
    assert_eq!(failed.step(StoreReply::Found(FeedId(1))), failed);
}

#[test]
fn insert_refuses_a_repeated_url() {
    let mut table = FeedTable::new();
    assert_eq!(table.insert_fetching("https://example.com/feed.xml"), Ok(FeedId(1)));
    assert_eq!(
        table.insert_fetching("https://example.com/feed.xml"),
        Err(InsertError::UniqueViolation)
    );
    assert_eq!(table.len(), 1);
    assert_eq!(table.insert_fetching("https://example.com/other.xml"), Ok(FeedId(2)));
}

#[test]
fn update_of_a_missing_feed_changes_no_row() {
    let mut table = FeedTable::new();
    let id = Feed::resolve_or_create("https://example.com/feed.xml", &mut table).unwrap();
    assert_eq!(table.update_status(FeedId(99), FeedStatus::Failed), 0);
    assert_eq!(table.status(id), Some(FeedStatus::Fetching));
    assert_eq!(table.status(FeedId(99)), None);
    assert_eq!(table.update_status(id, FeedStatus::Fetched), 1);
    assert_eq!(table.status(id), Some(FeedStatus::Fetched));
    assert_eq!(table.update_status(id, FeedStatus::Failed), 1);
    assert_eq!(table.status(id), Some(FeedStatus::Failed));
    assert_eq!(table.select_by_url("https://example.com/feed.xml"), Some(id));
}

#[test]
fn folders_resolve_by_the_same_rule() {
    let state: Resolution<UserFeedFolderId> = Resolution::start();
    let state = state.step(StoreReply::NotFound).step(StoreReply::Inserted(UserFeedFolderId(4)));
    assert_eq!(state.outcome(), Some(Ok(UserFeedFolderId(4))));
    let raced: Resolution<UserFeedFolderId> = Resolution::Inserting;
    let raced = raced.step(StoreReply::UniqueViolation).step(StoreReply::Found(UserFeedFolderId(4)));
    assert_eq!(raced, state);
}

#[test]
fn table_without_identifiers_left_refuses_new_feeds() {
    let mut table = FeedTable::starting_at(i32::MAX - 1);
    let last = Feed::resolve_or_create("https://example.com/last.xml", &mut table);
    assert_eq!(last, Ok(FeedId(i32::MAX - 1)));
    assert_eq!(
        table.insert_fetching("https://example.com/one-too-many.xml"),
        Err(InsertError::Exhausted)
    );
    assert_eq!(
        Feed::resolve_or_create("https://example.com/one-too-many.xml", &mut table),
        Err(StoreFailure)
    );
    assert_eq!(
        table.answer(StoreRequest::InsertFetching, "https://example.com/other.xml"),
        StoreReply::Failure
    );
    // A feed that exists is still resolved.
    assert_eq!(
        Feed::resolve_or_create("https://example.com/last.xml", &mut table),
        Ok(FeedId(i32::MAX - 1))
    );
    assert_eq!(table.len(), 1);
    let urls = vec!["https://example.com/last.xml".to_string(), "https://example.com/new".to_string()];
    assert!(Feed::resolve_all(urls, &mut table).is_err());
    assert_eq!(table.len(), 1);
}

#[test]
fn failed_bulk_resolution_leaves_nothing_behind() {
    // One identifier is left, and two feeds would have to be created.
    let mut table = FeedTable::starting_at(i32::MAX - 1);
    let urls = vec!["https://a.example/".to_string(), "https://b.example/".to_string()];
    assert_eq!(Feed::resolve_all(urls, &mut table).err(), Some(StoreFailure));
    assert_eq!(table.len(), 0);
    assert_eq!(table.next_id(), i32::MAX - 1);
    assert_eq!(table.select_by_url("https://a.example/"), None);
    // The identifier that was taken back is given again.
    assert_eq!(
        Feed::resolve_or_create("https://b.example/", &mut table),
        Ok(FeedId(i32::MAX - 1))
    );

    // Feeds that were there before stay, with what they were.
    let mut table = FeedTable::starting_at(i32::MAX - 2);
    let kept = Feed::resolve_or_create("https://kept.example/", &mut table).unwrap();
    assert_eq!(table.update_status(kept, FeedStatus::Fetched), 1);
    let urls = vec![
        "https://kept.example/".to_string(),
        "https://a.example/".to_string(),
        "https://b.example/".to_string(),
    ];
    assert!(Feed::resolve_all(urls, &mut table).is_err());
    assert_eq!(table.len(), 1);
    assert_eq!(table.next_id(), i32::MAX - 1);
    assert_eq!(table.status(kept), Some(FeedStatus::Fetched));
    assert_eq!(table.select_by_url("https://a.example/"), None);
}
