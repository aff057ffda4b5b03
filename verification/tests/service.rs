use feedr::database::models::{Feed, FeedId, FeedStatus};
use feedr::database::FeedTable;
use feedr::fetcher::parser::{Document, DocumentEntry, ParsedEntry, ParsedFeed};
use feedr::fetcher::worker::{RetrievedBody, Retrieval, WorkerState};
use feedr::fetcher::{Enqueued, FetchTask, Fetcher, FetcherHandle};

const ATOM: &str = r#"<?xml version="1.0" encoding="utf-8"?>
<feed xmlns="http://www.w3.org/2005/Atom">
  <title>Example</title>
  <id>urn:example</id>
  <updated>2024-01-01T00:00:00Z</updated>
  <entry><title>One</title><id>urn:1</id><updated>2024-01-01T00:00:00Z</updated></entry>
  <entry><title>Two</title><id>urn:2</id><updated>2024-01-02T00:00:00Z</updated></entry>
</feed>"#;

fn registered(urls: &[&str]) -> (FeedTable, FetcherHandle, Fetcher, Vec<FeedId>) {
    let mut table = FeedTable::new();
    let (mut handle, worker) = Fetcher::setup();
    let mut ids = Vec::new();
    for url in urls {
        let feed_id = Feed::resolve_or_create(url, &mut table).unwrap();
        let task = FetchTask { feed_id, url: url.to_string() };
        assert!(matches!(handle.fetch_feed(task), Ok(Enqueued::Accepted)));
        ids.push(feed_id);
    }
    (table, handle, worker, ids)
}

/// Runs the parser on `body`, as whoever drives the worker does.
fn parse(body: &[u8]) -> Option<Document> {
    let parser = feed_rs::parser::Builder::new().sanitize_content(true).build();
    let feed = parser.parse(body).ok()?;
    Some(Document {
        title: feed.title.map(|text| text.content),
        entries: feed
            .entries
            .into_iter()
            .map(|entry| DocumentEntry {
                title: entry.title.map(|text| text.content),
                content: entry.content.map(|content| content.body),
            })
            .collect(),
    })
}

/// The answer of an origin that sends `body` with `status`.
fn page(status: u16, body: &str) -> Retrieval {
    let body = match parse(body.as_bytes()) {
        Some(document) => RetrievedBody::Feed(document),
        None => RetrievedBody::NoFeed,
    };
    Retrieval { status: Some(status), body }
}

#[test]
fn scenario_feed_with_two_entries_becomes_ok() {
    let (mut table, mut handle, mut worker, ids) = registered(&["https://example.com/feed.xml"]);
    assert_eq!(table.status(ids[0]), Some(FeedStatus::Fetching));
    assert_eq!(table.status(ids[0]).unwrap().as_str(), "fetching");
    let served = worker.serve_one(&mut handle, &mut table, page(200, ATOM));
    assert_eq!(served, Some(ids[0]));
    assert_eq!(table.status(ids[0]).unwrap().as_str(), "ok");
    assert!(matches!(worker.state(), WorkerState::Idle));
    assert_eq!(handle.len(), 0);
}

#[test]
fn scenario_http_500_becomes_failed() {
    let (mut table, mut handle, mut worker, ids) = registered(&["https://example.com/broken.xml"]);
    let answer = Retrieval { status: Some(500), body: RetrievedBody::Unread };
    assert_eq!(worker.serve_one(&mut handle, &mut table, answer), Some(ids[0]));
    assert_eq!(table.status(ids[0]).unwrap().as_str(), "failed");
}

#[test]
fn scenario_garbage_body_becomes_failed() {
    let (mut table, mut handle, mut worker, ids) = registered(&["https://example.com/garbage.xml"]);
    let answer = page(200, "\u{0}\u{1}garbage, not a feed");
    assert_eq!(worker.serve_one(&mut handle, &mut table, answer), Some(ids[0]));
    assert_eq!(table.status(ids[0]).unwrap().as_str(), "failed");
}

#[test]
fn body_cut_short_becomes_failed() {
    let (mut table, mut handle, mut worker, ids) = registered(&["https://example.com/cut.xml"]);
    let answer = Retrieval { status: Some(200), body: RetrievedBody::Unread };
    assert_eq!(worker.serve_one(&mut handle, &mut table, answer), Some(ids[0]));
    assert_eq!(table.status(ids[0]), Some(FeedStatus::Failed));
}

#[test]
fn error_status_with_a_feed_as_body_is_still_a_failure() {
    let (mut table, mut handle, mut worker, ids) = registered(&["https://example.com/feed.xml"]);
    assert_eq!(worker.serve_one(&mut handle, &mut table, page(404, ATOM)), Some(ids[0]));
    assert_eq!(table.status(ids[0]), Some(FeedStatus::Failed));
}

#[test]
fn serving_takes_tasks_in_the_order_queued() {
    let (mut table, mut handle, mut worker, ids) =
        registered(&["https://a.example/", "https://b.example/", "https://c.example/"]);
    let unreachable = || Retrieval { status: None, body: RetrievedBody::Unread };
    assert_eq!(worker.serve_one(&mut handle, &mut table, page(200, ATOM)), Some(ids[0]));
    assert_eq!(table.status(ids[1]), Some(FeedStatus::Fetching));
    assert_eq!(worker.serve_one(&mut handle, &mut table, unreachable()), Some(ids[1]));
    assert_eq!(table.status(ids[2]), Some(FeedStatus::Fetching));
    assert_eq!(worker.serve_one(&mut handle, &mut table, page(200, ATOM)), Some(ids[2]));
    assert_eq!(worker.serve_one(&mut handle, &mut table, page(200, ATOM)), None);
    assert_eq!(table.status(ids[0]), Some(FeedStatus::Fetched));
    assert_eq!(table.status(ids[1]), Some(FeedStatus::Failed));
    assert_eq!(table.status(ids[2]), Some(FeedStatus::Fetched));
}

#[test]
fn serving_a_closed_and_empty_queue_ends_the_worker() {
    let (mut table, mut handle, mut worker, _) = registered(&[]);
    assert_eq!(worker.serve_one(&mut handle, &mut table, page(200, ATOM)), None);
    assert!(!worker.is_stopped());
    handle.close();
    assert_eq!(worker.serve_one(&mut handle, &mut table, page(200, ATOM)), None);
    assert!(worker.is_stopped());
    assert_eq!(worker.serve_one(&mut handle, &mut table, page(200, ATOM)), None);
}

#[test]
fn serving_a_feed_that_is_gone_changes_no_row() {
    let mut table = FeedTable::new();
    let (mut handle, mut worker) = Fetcher::setup();
    let kept = Feed::resolve_or_create("https://kept.example/", &mut table).unwrap();
    let gone = FetchTask { feed_id: FeedId(77), url: "https://gone.example/".to_string() };
    assert!(matches!(handle.fetch_feed(gone), Ok(Enqueued::Accepted)));
    assert_eq!(worker.serve_one(&mut handle, &mut table, page(200, ATOM)), Some(FeedId(77)));
    assert_eq!(table.len(), 1);
    assert_eq!(table.status(kept), Some(FeedStatus::Fetching));
    assert_eq!(table.status(FeedId(77)), None);
}

#[test]
fn status_reads_back_from_its_text() {
    for status in [FeedStatus::Fetching, FeedStatus::Fetched, FeedStatus::Failed] {
        assert_eq!(FeedStatus::parse(status.as_str()), Some(status));
    }
    assert_eq!(FeedStatus::parse("ok"), Some(FeedStatus::Fetched));
    assert_eq!(FeedStatus::parse("OK"), None);
    assert_eq!(FeedStatus::parse(""), None);
    assert_eq!(FeedStatus::parse("fetched"), None);
}

#[test]
fn content_without_body_counts_as_no_content() {
    let entry = |content| DocumentEntry { title: Some("t".to_string()), content };
    let document = Document {
        title: None,
        entries: vec![entry(None), entry(Some(None)), entry(Some(Some("body".to_string())))],
    };
    let feed = ParsedFeed::from_document(document);
    assert_eq!(feed.title, None);
    let contents: Vec<Option<&str>> =
        feed.entries.iter().map(|entry| entry.content.as_deref()).collect();
    assert_eq!(contents, vec![None, None, Some("body")]);
    let parsed = ParsedEntry::from_document(DocumentEntry { title: None, content: Some(None) });
    assert_eq!(parsed.title, None);
    assert_eq!(parsed.content, None);
}
