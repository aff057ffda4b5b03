//! What a parser found in a retrieved body, and the feed that it stands for.
//!
//! The parser itself runs outside this library, where a body that makes it
//! give up half-way can be contained. It hands over a [`Document`], or
//! nothing where the body is no feed.

use vstd::prelude::*;

use super::error::FetcherError;

verus! {

/// One entry of a parsed feed.
#[derive(Debug)]
pub struct ParsedEntry {
    pub title: Option<String>,
    pub content: Option<String>,
}

/// A parsed feed: its title and its entries in document order.
#[derive(Debug)]
pub struct ParsedFeed {
    pub title: Option<String>,
    pub entries: Vec<ParsedEntry>,
}

/// One entry as the parser hands it out: its title, and its content element
/// with the body that the element holds inline, where it has either.
#[derive(Debug)]
pub struct DocumentEntry {
    pub title: Option<String>,
    pub content: Option<Option<String>>,
}

/// A document as the parser hands it out.
#[derive(Debug)]
pub struct Document {
    pub title: Option<String>,
    pub entries: Vec<DocumentEntry>,
}

/// A text that may be missing, as contracts speak of it.
pub open spec fn text_view(text: Option<String>) -> Option<Seq<char>> {
    match text {
        Some(text) => Some(text@),
        None => None,
    }
}

/// An entry as contracts speak of it.
pub struct EntryView {
    pub title: Option<Seq<char>>,
    pub content: Option<Seq<char>>,
}

/// A parsed feed as contracts speak of it.
pub struct FeedView {
    pub title: Option<Seq<char>>,
    pub entries: Seq<EntryView>,
}

/// An entry of a document as contracts speak of it.
pub struct DocumentEntryView {
    pub title: Option<Seq<char>>,
    pub content: Option<Option<Seq<char>>>,
}

/// A document as contracts speak of it.
pub struct DocumentView {
    pub title: Option<Seq<char>>,
    pub entries: Seq<DocumentEntryView>,
}

impl View for ParsedEntry {
    type V = EntryView;

    open spec fn view(&self) -> EntryView {
        EntryView { title: text_view(self.title), content: text_view(self.content) }
    }
}

impl View for ParsedFeed {
    type V = FeedView;

    open spec fn view(&self) -> FeedView {
        FeedView {
            title: text_view(self.title),
            entries: self.entries@.map_values(|entry: ParsedEntry| entry@),
        }
    }
}

impl View for DocumentEntry {
    type V = DocumentEntryView;

    open spec fn view(&self) -> DocumentEntryView {
        DocumentEntryView {
            title: text_view(self.title),
            content: match self.content {
                Some(body) => Some(text_view(body)),
                None => None,
            },
        }
    }
}

impl View for Document {
    type V = DocumentView;

    open spec fn view(&self) -> DocumentView {
        DocumentView {
            title: text_view(self.title),
            entries: self.entries@.map_values(|entry: DocumentEntry| entry@),
        }
    }
}

/// The entry of a feed that an entry of a document stands for: a content
/// element without an inline body counts as no content.
pub open spec fn entry_of(entry: DocumentEntryView) -> EntryView {
    EntryView {
        title: entry.title,
        content: match entry.content {
            Some(Some(body)) => Some(body),
            _ => None,
        },
    }
}

/// The feed that a document stands for: the same title, the same entries in
/// the same order.
pub open spec fn feed_of(document: DocumentView) -> FeedView {
    FeedView { title: document.title, entries: document.entries.map_values(|entry| entry_of(entry)) }
}

/// A document that may be missing, as contracts speak of it.
pub open spec fn document_view(document: Option<Document>) -> Option<DocumentView> {
    match document {
        Some(document) => Some(document@),
        None => None,
    }
}

/// What parsing a body comes to, given the document that the parser found in
/// it: the feed, or the failure `Parse` where it found none.
pub open spec fn parse_outcome(document: Option<DocumentView>) -> Result<FeedView, FetcherError> {
    match document {
        Some(document) => Ok(feed_of(document)),
        None => Err(FetcherError::Parse),
    }
}

/// A parse result as contracts speak of it.
pub open spec fn result_view(result: Result<ParsedFeed, FetcherError>) -> Result<
    FeedView,
    FetcherError,
> {
    match result {
        Ok(feed) => Ok(feed@),
        Err(error) => Err(error),
    }
}

impl ParsedEntry {
    /// The entry that `entry` stands for.
    pub fn from_document(entry: DocumentEntry) -> (parsed: ParsedEntry)
        ensures
            parsed@ == entry_of(entry@),
    {
        let DocumentEntry { title, content } = entry;
        let content = match content {
            Some(Some(body)) => Some(body),
            _ => None,
        };
        ParsedEntry { title, content }
    }
}

impl ParsedFeed {
    /// The feed that `document` stands for.
    pub fn from_document(document: Document) -> (feed: ParsedFeed)
        ensures
            feed@ == feed_of(document@),
    {
        let Document { title, entries: found } = document;
        let ghost all = found@;
        let mut entries: Vec<ParsedEntry> = Vec::new();
        for entry in rest: found
            invariant
                rest.seq() == all,
                entries@.len() == rest.index(),
                forall|i: int| 0 <= i < entries@.len() ==> (#[trigger] entries@[i])@ == entry_of(all[i]@),
        {
            entries.push(ParsedEntry::from_document(entry));
        }
        let feed = ParsedFeed { title, entries };
        assert(feed@.entries =~= feed_of(document@).entries);
        feed
    }
}

/// The result of parsing a body in which the parser found `document`: the
/// feed that the document stands for. A body in which it found none is
/// refused with `Parse`.
pub fn parse_feed(document: Option<Document>) -> (result: Result<ParsedFeed, FetcherError>)
    ensures
        result_view(result) == parse_outcome(document_view(document)),
{
    match document {
        Some(document) => Ok(ParsedFeed::from_document(document)),
        None => Err(FetcherError::Parse),
    }
}

} // verus!
