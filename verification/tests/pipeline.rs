use feedr::database::models::{Feed, FeedId, FeedStatus};
use feedr::database::FeedTable;
use feedr::fetcher::parser::{parse_feed, Document, DocumentEntry};
use feedr::fetcher::worker::{FetchOutcome, WorkerAction, WorkerEvent, WorkerState};
use feedr::fetcher::{Enqueued, FetchTask, Fetcher, FetcherError, FetcherHandle, Received};

const WELL_FORMED: &str = r#"<?xml version="1.0" encoding="UTF-8"?>
<rss version="2.0">
  <channel>
    <title>Example feed</title>
    <link>https://example.com/</link>
    <description>An example</description>
    <item>
      <title>First entry</title>
      <link>https://example.com/1</link>
      <guid>https://example.com/1</guid>
    </item>
    <item>
      <title>Second entry</title>
      <link>https://example.com/2</link>
      <guid>https://example.com/2</guid>
    </item>
  </channel>
</rss>"#;

/// Runs the parser on `body`, as whoever drives the worker does.
fn parse(body: &[u8]) -> Option<Document> {
    let parser = feed_rs::parser::Builder::new().sanitize_content(true).build();
    let feed = parser.parse(body).ok()?;
    Some(Document {
        title: feed.title.map(|text| text.content),
        entries: feed
            .entries
            .into_iter()
            .map(|entry| DocumentEntry {
                title: entry.title.map(|text| text.content),
                content: entry.content.map(|content| content.body),
            })
            .collect(),
    })
}

/// What a mock origin answers for one request.
enum Origin {
    Unreachable,
    Status(u16),
    Page(u16, Vec<u8>),
    BrokenBody(u16),
}

/// Registers `url`: resolves it to its feed and queues a fetch for it.
fn register(table: &mut FeedTable, handle: &mut FetcherHandle, url: &str) -> FeedId {
    let feed_id = Feed::resolve_or_create(url, table).expect("an identifier is left");
    let task = FetchTask { feed_id, url: url.to_string() };
    match handle.fetch_feed(task) {
        Ok(Enqueued::Accepted) => feed_id,
        other => panic!("the task was not accepted: {other:?}"),
    }
}

/// Runs the worker until the queue has nothing more for it, against a mock
/// origin, and returns the feeds in the order in which they were requested.
fn drain(
    worker: &mut Fetcher,
    handle: &mut FetcherHandle,
    table: &mut FeedTable,
    origin: &dyn Fn(&str) -> Origin,
) -> Vec<FeedId> {
    let mut requested = Vec::new();
    let mut answer: Option<Origin> = None;
    loop {
        let event = match worker.action() {
            WorkerAction::Receive => match handle.receive() {
                Received::Task(task) => WorkerEvent::Task(task),
                Received::Empty => return requested,
                Received::Finished => WorkerEvent::QueueClosed,
            },
            WorkerAction::Get { task } => {
                requested.push(task.feed_id);
                let response = origin(&task.url);
                let event = match &response {
                    Origin::Unreachable => WorkerEvent::Unreachable,
                    Origin::Status(status) => WorkerEvent::Response(*status),
                    Origin::Page(status, _) => WorkerEvent::Response(*status),
                    Origin::BrokenBody(status) => WorkerEvent::Response(*status),
                };
                answer = Some(response);
                event
            }
            WorkerAction::ReadBody => match answer.take() {
                Some(Origin::Page(_, body)) => WorkerEvent::Body(parse(&body)),
                _ => WorkerEvent::BodyFailed,
            },
            WorkerAction::Record { outcome } => {
                Fetcher::record(outcome, table);
                WorkerEvent::Recorded
            }
            WorkerAction::Stop => return requested,
        };
        assert!(worker.expects(&event));
        worker.step(event);
    }
}

#[test]
fn registered_feed_starts_as_fetching() {
    let mut table = FeedTable::new();
    let (mut handle, _worker) = Fetcher::setup();
    let id = register(&mut table, &mut handle, "https://example.com/feed.xml");
    assert_eq!(table.status(id), Some(FeedStatus::Fetching));
    assert_eq!(handle.len(), 1);
}

#[test]
fn well_formed_feed_ends_as_ok() {
    let mut table = FeedTable::new();
    let (mut handle, mut worker) = Fetcher::setup();
    let id = register(&mut table, &mut handle, "https://example.com/feed.xml");
    assert_eq!(table.status(id), Some(FeedStatus::Fetching));
    let origin = |_: &str| Origin::Page(200, WELL_FORMED.as_bytes().to_vec());
    let requested = drain(&mut worker, &mut handle, &mut table, &origin);
    assert_eq!(requested, vec![id]);
    assert_eq!(table.status(id), Some(FeedStatus::Fetched));
    assert_eq!(table.status(id).unwrap().as_str(), "ok");
}

#[test]
fn server_error_ends_as_failed() {
    let mut table = FeedTable::new();
    let (mut handle, mut worker) = Fetcher::setup();
    let id = register(&mut table, &mut handle, "https://example.com/broken.xml");
    let origin = |_: &str| Origin::Status(500);
    drain(&mut worker, &mut handle, &mut table, &origin);
    assert_eq!(table.status(id), Some(FeedStatus::Failed));
    assert_eq!(table.status(id).unwrap().as_str(), "failed");
}

#[test]
fn garbage_body_ends_as_failed() {
    let mut table = FeedTable::new();
    let (mut handle, mut worker) = Fetcher::setup();
    let id = register(&mut table, &mut handle, "https://example.com/garbage.xml");
    let origin = |_: &str| Origin::Page(200, b"this is no feed at all".to_vec());
    drain(&mut worker, &mut handle, &mut table, &origin);
    assert_eq!(table.status(id), Some(FeedStatus::Failed));
}

#[test]
fn unreachable_origin_ends_as_failed() {
    let mut table = FeedTable::new();
    let (mut handle, mut worker) = Fetcher::setup();
    let id = register(&mut table, &mut handle, "https://unreachable.example/feed.xml");
    let origin = |_: &str| Origin::Unreachable;
    drain(&mut worker, &mut handle, &mut table, &origin);
    assert_eq!(table.status(id), Some(FeedStatus::Failed));
}

#[test]
fn unreadable_body_ends_as_failed() {
    let mut table = FeedTable::new();
    let (mut handle, mut worker) = Fetcher::setup();
    let id = register(&mut table, &mut handle, "https://example.com/cut.xml");
    let origin = |_: &str| Origin::BrokenBody(200);
    drain(&mut worker, &mut handle, &mut table, &origin);
    assert_eq!(table.status(id), Some(FeedStatus::Failed));
}

#[test]
fn redirect_status_is_a_failure() {
    let mut table = FeedTable::new();
    let (mut handle, mut worker) = Fetcher::setup();
    let id = register(&mut table, &mut handle, "https://example.com/moved.xml");
    let origin = |_: &str| Origin::Page(304, WELL_FORMED.as_bytes().to_vec());
    drain(&mut worker, &mut handle, &mut table, &origin);
    assert_eq!(table.status(id), Some(FeedStatus::Failed));
}

#[test]
fn tasks_are_processed_in_the_order_queued() {
    let mut table = FeedTable::new();
    let (mut handle, mut worker) = Fetcher::setup();
    let a = register(&mut table, &mut handle, "https://a.example/feed");
    let b = register(&mut table, &mut handle, "https://b.example/feed");
    let c = register(&mut table, &mut handle, "https://c.example/feed");
    let origin = |url: &str| {
        if url.starts_with("https://b.") {
            Origin::Status(404)
        } else {
            Origin::Page(200, WELL_FORMED.as_bytes().to_vec())
        }
    };
    let requested = drain(&mut worker, &mut handle, &mut table, &origin);
    assert_eq!(requested, vec![a, b, c]);
    assert_eq!(table.status(a), Some(FeedStatus::Fetched));
    assert_eq!(table.status(b), Some(FeedStatus::Failed));
    assert_eq!(table.status(c), Some(FeedStatus::Fetched));
}

#[test]
fn one_failure_does_not_stop_the_worker() {
    let mut table = FeedTable::new();
    let (mut handle, mut worker) = Fetcher::setup();
    let bad = register(&mut table, &mut handle, "https://bad.example/feed");
    let good = register(&mut table, &mut handle, "https://good.example/feed");
    let origin = |url: &str| {
        if url.contains("bad") {
            Origin::Unreachable
        } else {
            Origin::Page(200, WELL_FORMED.as_bytes().to_vec())
        }
    };
    drain(&mut worker, &mut handle, &mut table, &origin);
    assert!(!worker.is_stopped());
    assert_eq!(table.status(bad), Some(FeedStatus::Failed));
    assert_eq!(table.status(good), Some(FeedStatus::Fetched));
}

#[test]
fn refetch_overwrites_the_last_status() {
    let mut table = FeedTable::new();
    let (mut handle, mut worker) = Fetcher::setup();
    let url = "https://example.com/feed.xml";
    let id = register(&mut table, &mut handle, url);
    drain(&mut worker, &mut handle, &mut table, &|_: &str| Origin::Status(503));
    assert_eq!(table.status(id), Some(FeedStatus::Failed));
    assert_eq!(register(&mut table, &mut handle, url), id);
    assert_eq!(table.status(id), Some(FeedStatus::Failed));
    drain(&mut worker, &mut handle, &mut table, &|_: &str| {
        Origin::Page(200, WELL_FORMED.as_bytes().to_vec())
    });
    assert_eq!(table.status(id), Some(FeedStatus::Fetched));
    assert_eq!(table.len(), 1);
}

#[test]
fn closed_and_drained_queue_stops_the_worker() {
    let mut table = FeedTable::new();
    let (mut handle, mut worker) = Fetcher::setup();
    let id = register(&mut table, &mut handle, "https://example.com/feed.xml");
    handle.close();
    let origin = |_: &str| Origin::Page(200, WELL_FORMED.as_bytes().to_vec());
    let requested = drain(&mut worker, &mut handle, &mut table, &origin);
    assert_eq!(requested, vec![id]);
    assert!(worker.is_stopped());
    assert_eq!(table.status(id), Some(FeedStatus::Fetched));
    assert!(matches!(worker.action(), WorkerAction::Stop));
}

#[test]
fn parsed_outcome_holds_the_entries_in_order() {
    let (_handle, mut worker) = Fetcher::setup();
    let task = FetchTask { feed_id: FeedId(7), url: "https://example.com/feed.xml".to_string() };
    worker.step(WorkerEvent::Task(task));
    worker.step(WorkerEvent::Response(200));
    worker.step(WorkerEvent::Body(parse(WELL_FORMED.as_bytes())));
    match worker.state() {
        WorkerState::Recording(FetchOutcome { feed_id, url, result: Ok(feed) }) => {
            assert_eq!(*feed_id, FeedId(7));
            assert_eq!(url, "https://example.com/feed.xml");
            assert_eq!(feed.title.as_deref(), Some("Example feed"));
            assert_eq!(feed.entries.len(), 2);
            assert_eq!(feed.entries[0].title.as_deref(), Some("First entry"));
            assert_eq!(feed.entries[1].title.as_deref(), Some("Second entry"));
        }
        other => panic!("unexpected state {other:?}"),
    }
}

#[test]
fn each_failure_names_its_stage() {
    let task = || FetchTask { feed_id: FeedId(1), url: "https://example.com/".to_string() };
    let failure = |events: Vec<WorkerEvent>| {
        let (_handle, mut worker) = Fetcher::setup();
        worker.step(WorkerEvent::Task(task()));
        for event in events {
            worker.step(event);
        }
        match worker.state() {
            WorkerState::Recording(outcome) => outcome.result.as_ref().err().copied(),
            _ => None,
        }
    };
    assert_eq!(failure(vec![WorkerEvent::Unreachable]), Some(FetcherError::Network));
    assert_eq!(failure(vec![WorkerEvent::Response(500)]), Some(FetcherError::HttpStatus(500)));
    assert_eq!(failure(vec![WorkerEvent::Response(199)]), Some(FetcherError::HttpStatus(199)));
    assert_eq!(failure(vec![WorkerEvent::Response(300)]), Some(FetcherError::HttpStatus(300)));
    assert_eq!(
        failure(vec![WorkerEvent::Response(299), WorkerEvent::BodyFailed]),
        Some(FetcherError::BodyRead)
    );
    assert_eq!(
        failure(vec![WorkerEvent::Response(200), WorkerEvent::Body(parse(b"<html></html>"))]),
        Some(FetcherError::Parse)
    );
    assert_eq!(
        failure(vec![WorkerEvent::Response(200), WorkerEvent::Body(parse(WELL_FORMED.as_bytes()))]),
        None
    );
    assert_eq!(FetcherError::Network.message(), "could not reach server");
    assert_eq!(FetcherError::HttpStatus(500).message(), "server returned an error");
    assert_eq!(FetcherError::BodyRead.message(), "could not access request body");
    assert_eq!(FetcherError::Parse.message(), "could not parse feed");
}

#[test]
fn unexpected_events_change_nothing() {
    let (_handle, mut worker) = Fetcher::setup();
    assert!(!worker.expects(&WorkerEvent::Recorded));
    worker.step(WorkerEvent::Recorded);
    worker.step(WorkerEvent::Body(parse(WELL_FORMED.as_bytes())));
    worker.step(WorkerEvent::Response(200));
    assert!(matches!(worker.state(), WorkerState::Idle));
    assert!(matches!(worker.action(), WorkerAction::Receive));
}

#[test]
fn embedded_markup_is_sanitized() {
    let body = r#"<?xml version="1.0" encoding="UTF-8"?>
<feed xmlns="http://www.w3.org/2005/Atom">
  <title>Markup</title>
  <id>urn:feed</id>
  <updated>2024-01-01T00:00:00Z</updated>
  <entry>
    <title>Entry</title>
    <id>urn:entry</id>
    <updated>2024-01-01T00:00:00Z</updated>
    <content type="html">&lt;p&gt;hello&lt;/p&gt;&lt;script&gt;alert(1)&lt;/script&gt;</content>
  </entry>
</feed>"#;
    let feed = parse_feed(parse(body.as_bytes())).unwrap();
    assert_eq!(feed.title.as_deref(), Some("Markup"));
    assert_eq!(feed.entries.len(), 1);
    let content = feed.entries[0].content.as_deref().unwrap();
    assert!(content.contains("hello"));
    assert!(!content.contains("script"));
    assert!(!content.contains("alert"));
}

#[test]
fn json_and_atom_documents_are_detected() {
    let json = br#"{"version": "https://jsonfeed.org/version/1.1", "title": "J", "items": [{"id": "1", "title": "one", "content_text": "text"}]}"#;
    let feed = parse_feed(parse(json)).unwrap();
    assert_eq!(feed.title.as_deref(), Some("J"));
    assert_eq!(feed.entries.len(), 1);
    assert_eq!(feed.entries[0].title.as_deref(), Some("one"));
    assert_eq!(parse_feed(parse(b"")).err(), Some(FetcherError::Parse));
    assert_eq!(parse_feed(parse(b"{}")).err(), Some(FetcherError::Parse));
    assert_eq!(parse_feed(None).err(), Some(FetcherError::Parse));
}

#[test]
fn user_agent_names_program_and_version() {
    assert_eq!(feedr::fetcher::worker::user_agent(), "feedr/0.1.0");
    assert!(feedr::fetcher::worker::status_is_success(200));
    assert!(feedr::fetcher::worker::status_is_success(299));
    assert!(!feedr::fetcher::worker::status_is_success(199));
    assert!(!feedr::fetcher::worker::status_is_success(300));
}
