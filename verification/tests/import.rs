use feedr::utils::{
    opml_to_feed_folders as folders_of, parse_url, FeedOutline, FolderOutline, ImportError,
    ImportedFeed,
};

/// Runs the OPML reader on `text`, as whoever takes an upload does.
fn read_outlines(text: &str) -> Option<Vec<FolderOutline>> {
    let document = opml::OPML::from_str(text).ok()?;
    let folders = document.body.outlines.into_iter().map(|folder| FolderOutline {
        title: folder.title,
        feeds: folder
            .outlines
            .into_iter()
            .map(|feed| FeedOutline { title: feed.title, xml_url: feed.xml_url })
            .collect(),
    });
    Some(folders.collect())
}

fn opml_to_feed_folders(text: &str) -> Result<Vec<(String, Vec<ImportedFeed>)>, ImportError> {
    folders_of(read_outlines(text))
}

const SUBSCRIPTIONS: &str = r#"<?xml version="1.0" encoding="UTF-8"?>
<opml version="2.0">
  <head><title>Subscriptions</title></head>
  <body>
    <outline text="News" title="News">
      <outline type="rss" text="Example" title="Example" xmlUrl="https://example.com/feed.xml"/>
      <outline type="rss" text="Other" title="Other" xmlUrl="HTTP://Other.Example/rss"/>
    </outline>
    <outline text="Empty" title="Empty"/>
    <outline text="Blogs" title="Blogs">
      <outline type="rss" text="Blog" title="Blog" xmlUrl="https://blog.example/atom.xml"/>
    </outline>
  </body>
</opml>"#;

fn document(body: &str) -> String {
    format!(r#"<opml version="2.0"><head/><body>{body}</body></opml>"#)
}

#[test]
fn opml_folders_come_in_document_order() {
    let folders = opml_to_feed_folders(SUBSCRIPTIONS).unwrap();
    assert_eq!(folders.len(), 3);
    assert_eq!(folders[0].0, "News");
    assert_eq!(folders[0].1.len(), 2);
    assert_eq!(folders[0].1[0].title, "Example");
    assert_eq!(folders[0].1[0].url, "https://example.com/feed.xml");
    assert_eq!(folders[0].1[1].title, "Other");
    assert_eq!(folders[0].1[1].url, "http://other.example/rss");
    assert_eq!(folders[1].0, "Empty");
    assert!(folders[1].1.is_empty());
    assert_eq!(folders[2].0, "Blogs");
    assert_eq!(folders[2].1[0].url, "https://blog.example/atom.xml");
}

#[test]
fn text_that_is_no_opml_is_refused() {
    assert_eq!(opml_to_feed_folders("not xml at all").err(), Some(ImportError::Document));
    assert_eq!(opml_to_feed_folders("").err(), Some(ImportError::Document));
    assert_eq!(
        opml_to_feed_folders(r#"<opml version="2.0"><head/><body/></opml>"#).err(),
        Some(ImportError::Document)
    );
    assert_eq!(
        opml_to_feed_folders(r#"<opml version="9.9"><head/><body><outline text="a"/></body></opml>"#)
            .err(),
        Some(ImportError::Document)
    );
}

#[test]
fn missing_document_is_refused() {
    assert_eq!(folders_of(None).err(), Some(ImportError::Document));
    assert!(folders_of(Some(Vec::new())).unwrap().is_empty());
}

#[test]
fn outlines_are_read_without_a_file() {
    let feed = |title: Option<&str>, url: Option<&str>| FeedOutline {
        title: title.map(str::to_string),
        xml_url: url.map(str::to_string),
    };
    let folder = FolderOutline {
        title: Some("News".to_string()),
        feeds: vec![feed(Some("A"), Some("https://a.example")), feed(Some("B"), Some("https://b.example/x"))],
    };
    let folders = folders_of(Some(vec![folder])).unwrap();
    assert_eq!(folders.len(), 1);
    assert_eq!(folders[0].0, "News");
    assert_eq!(folders[0].1[0].url, "https://a.example/");
    assert_eq!(folders[0].1[1].url, "https://b.example/x");
    let untitled = FolderOutline { title: None, feeds: vec![feed(None, None)] };
    assert_eq!(folders_of(Some(vec![untitled])).err(), Some(ImportError::FeedTitle));
}

#[test]
fn folder_without_title_is_refused() {
    let text = document(r#"<outline text="News"><outline title="A" xmlUrl="https://a.example/"/></outline>"#);
    assert_eq!(opml_to_feed_folders(&text).err(), Some(ImportError::FolderTitle));
}

#[test]
fn feed_without_title_is_refused() {
    let text = document(r#"<outline title="News"><outline text="A" xmlUrl="https://a.example/"/></outline>"#);
    assert_eq!(opml_to_feed_folders(&text).err(), Some(ImportError::FeedTitle));
}

#[test]
fn feed_without_url_is_refused() {
    let text = document(r#"<outline title="News"><outline title="A"/></outline>"#);
    assert_eq!(opml_to_feed_folders(&text).err(), Some(ImportError::FeedUrl));
}

#[test]
fn feed_with_invalid_url_is_refused() {
    let text = document(r#"<outline title="News"><outline title="A" xmlUrl="not a url"/></outline>"#);
    assert_eq!(opml_to_feed_folders(&text).err(), Some(ImportError::InvalidUrl));
}

#[test]
fn first_fault_in_document_order_decides() {
    // The feeds of a folder are looked at before the folder's own title.
    let text = document(
        r#"<outline text="untitled"><outline title="A"/></outline><outline title="B"><outline xmlUrl="https://b.example/"/></outline>"#,
    );
    assert_eq!(opml_to_feed_folders(&text).err(), Some(ImportError::FeedUrl));
    let text = document(
        r#"<outline title="ok"><outline title="A" xmlUrl="https://a.example/"/><outline title="B" xmlUrl="::"/><outline xmlUrl="https://c.example/"/></outline>"#,
    );
    assert_eq!(opml_to_feed_folders(&text).err(), Some(ImportError::InvalidUrl));
}

#[test]
fn url_is_parsed_and_serialized() {
    assert_eq!(parse_url("https://example.com"), Some("https://example.com/".to_string()));
    assert_eq!(
        parse_url("HTTPS://EXAMPLE.com/a/../feed.xml"),
        Some("https://example.com/feed.xml".to_string())
    );
    assert_eq!(parse_url("https://example.com/feed.xml"), Some("https://example.com/feed.xml".to_string()));
}

#[test]
fn text_that_is_no_absolute_url_is_refused() {
    assert_eq!(parse_url(""), None);
    assert_eq!(parse_url("/relative/path"), None);
    assert_eq!(parse_url("example.com/feed.xml"), None);
    assert_eq!(parse_url("https://"), None);
}
