//! Reading what users hand in: a feed's URL, or the outlines of an OPML file
//! of subscriptions sorted into folders.
//!
//! The OPML reader itself runs outside this library, where a file that nests
//! its outlines without end can be contained. It hands over the top-level
//! outlines, or nothing where the file is no OPML document.

use vstd::prelude::*;

verus! {

/// `url::ParseError`: why a text is no URL. It is carried through unread.
#[verifier::external_type_specification]
#[verifier::external_body]
pub struct ExUrlParseError(url::ParseError);

/// The serialization of the absolute URL that `text` denotes; `None` where
/// `text` denotes none.
pub uninterp spec fn parsed_url(text: Seq<char>) -> Option<Seq<char>>;

/// Calls `url::Url::parse` on `text` and turns the URL into its
/// serialization, as `url::Url::as_str` gives it.
///
/// The contract claims only that the outcome is a function of the text.
#[verifier::external_body]
fn parse_absolute(text: &str) -> (result: Result<String, url::ParseError>)
    ensures
        match result {
            Ok(url) => parsed_url(text@) == Some(url@),
            Err(_) => parsed_url(text@) is None,
        },
{
    let url = url::Url::parse(text)?;
    Ok(String::from(url))
}

/// The URL that `text` denotes, in its serialized form; `None` where `text`
/// is no absolute URL.
pub fn parse_url(text: &str) -> (url: Option<String>)
    ensures
        match url {
            Some(url) => parsed_url(text@) == Some(url@),
            None => parsed_url(text@) is None,
        },
{
    match parse_absolute(text) {
        Ok(url) => Some(url),
        Err(_) => None,
    }
}

/// An outline that stands for one feed, as the OPML file gives it.
#[derive(Debug)]
pub struct FeedOutline {
    pub title: Option<String>,
    pub xml_url: Option<String>,
}

/// A top-level outline, which stands for a folder, with the outlines
/// directly below it.
#[derive(Debug)]
pub struct FolderOutline {
    pub title: Option<String>,
    pub feeds: Vec<FeedOutline>,
}

/// A feed to subscribe to, as an OPML file names it.
#[derive(Debug)]
pub struct ImportedFeed {
    pub title: String,
    /// The feed's URL, serialized.
    pub url: String,
}

/// A text that may be missing, as contracts speak of it.
pub open spec fn optional_text(text: Option<String>) -> Option<Seq<char>> {
    match text {
        Some(text) => Some(text@),
        None => None,
    }
}

/// A feed outline as contracts speak of it.
pub struct FeedOutlineView {
    pub title: Option<Seq<char>>,
    pub xml_url: Option<Seq<char>>,
}

/// A folder outline as contracts speak of it.
pub struct FolderOutlineView {
    pub title: Option<Seq<char>>,
    pub feeds: Seq<FeedOutlineView>,
}

/// An imported feed as contracts speak of it.
pub struct ImportedFeedView {
    pub title: Seq<char>,
    pub url: Seq<char>,
}

impl View for FeedOutline {
    type V = FeedOutlineView;

    open spec fn view(&self) -> FeedOutlineView {
        FeedOutlineView { title: optional_text(self.title), xml_url: optional_text(self.xml_url) }
    }
}

impl View for FolderOutline {
    type V = FolderOutlineView;

    open spec fn view(&self) -> FolderOutlineView {
        FolderOutlineView {
            title: optional_text(self.title),
            feeds: self.feeds@.map_values(|feed: FeedOutline| feed@),
        }
    }
}

impl View for ImportedFeed {
    type V = ImportedFeedView;

    open spec fn view(&self) -> ImportedFeedView {
        ImportedFeedView { title: self.title@, url: self.url@ }
    }
}

/// The imported feeds `feeds` as contracts speak of them.
pub open spec fn feeds_view(feeds: Seq<ImportedFeed>) -> Seq<ImportedFeedView> {
    feeds.map_values(|feed: ImportedFeed| feed@)
}

/// One folder with its feeds as contracts speak of it.
pub open spec fn folder_view(folder: (String, Vec<ImportedFeed>)) -> (Seq<char>, Seq<ImportedFeedView>) {
    (folder.0@, feeds_view(folder.1@))
}

/// The folders `folders` as contracts speak of them.
pub open spec fn folders_view(folders: Seq<(String, Vec<ImportedFeed>)>) -> Seq<
    (Seq<char>, Seq<ImportedFeedView>),
> {
    folders.map_values(|folder: (String, Vec<ImportedFeed>)| folder_view(folder))
}

/// Why an OPML file could not be imported.
#[derive(Clone, Copy, Debug, PartialEq, Eq, Structural)]
pub enum ImportError {
    /// The file is no OPML document.
    Document,
    /// A folder has no title.
    FolderTitle,
    /// A feed has no title.
    FeedTitle,
    /// A feed has no URL.
    FeedUrl,
    /// A feed's URL is no absolute URL.
    InvalidUrl,
}

/// The feed that a feed outline stands for. It needs a title and a URL that
/// parses, looked at in that order.
pub open spec fn imported_feed(outline: FeedOutlineView) -> Result<ImportedFeedView, ImportError> {
    match outline.title {
        None => Err(ImportError::FeedTitle),
        Some(title) => match outline.xml_url {
            None => Err(ImportError::FeedUrl),
            Some(xml_url) => match parsed_url(xml_url) {
                None => Err(ImportError::InvalidUrl),
                Some(url) => Ok(ImportedFeedView { title, url }),
            },
        },
    }
}

/// The feeds that `outlines` stand for, in order; or what is wrong with the
/// first outline that stands for none.
pub open spec fn imported_feeds(outlines: Seq<FeedOutlineView>) -> Result<
    Seq<ImportedFeedView>,
    ImportError,
>
    decreases outlines.len(),
{
    if outlines.len() == 0 {
        Ok(Seq::empty())
    } else {
        match imported_feeds(outlines.drop_last()) {
            Err(error) => Err(error),
            Ok(feeds) => match imported_feed(outlines.last()) {
                Err(error) => Err(error),
                Ok(feed) => Ok(feeds.push(feed)),
            },
        }
    }
}

/// The folder that a folder outline stands for: its feeds are looked at
/// first, then its title.
pub open spec fn imported_folder(outline: FolderOutlineView) -> Result<
    (Seq<char>, Seq<ImportedFeedView>),
    ImportError,
> {
    match imported_feeds(outline.feeds) {
        Err(error) => Err(error),
        Ok(feeds) => match outline.title {
            None => Err(ImportError::FolderTitle),
            Some(title) => Ok((title, feeds)),
        },
    }
}

/// The folders that `outlines` stand for, in order; or what is wrong with
/// the first one that stands for none.
pub open spec fn imported_folders(outlines: Seq<FolderOutlineView>) -> Result<
    Seq<(Seq<char>, Seq<ImportedFeedView>)>,
    ImportError,
>
    decreases outlines.len(),
{
    if outlines.len() == 0 {
        Ok(Seq::empty())
    } else {
        match imported_folders(outlines.drop_last()) {
            Err(error) => Err(error),
            Ok(folders) => match imported_folder(outlines.last()) {
                Err(error) => Err(error),
                Ok(folder) => Ok(folders.push(folder)),
            },
        }
    }
}

/// The outlines `outlines` as contracts speak of them.
pub open spec fn outlines_view(outlines: Option<Vec<FolderOutline>>) -> Option<
    Seq<FolderOutlineView>,
> {
    match outlines {
        Some(outlines) => Some(outlines@.map_values(|folder: FolderOutline| folder@)),
        None => None,
    }
}

/// What importing an OPML file comes to, given the top-level outlines that
/// the reader found in it, or none where the file is no OPML document.
pub open spec fn imported_document(outlines: Option<Seq<FolderOutlineView>>) -> Result<
    Seq<(Seq<char>, Seq<ImportedFeedView>)>,
    ImportError,
> {
    match outlines {
        None => Err(ImportError::Document),
        Some(outlines) => imported_folders(outlines),
    }
}

/// The result of an import as contracts speak of it.
pub open spec fn import_view(result: Result<Vec<(String, Vec<ImportedFeed>)>, ImportError>) -> Result<
    Seq<(Seq<char>, Seq<ImportedFeedView>)>,
    ImportError,
> {
    match result {
        Ok(folders) => Ok(folders_view(folders@)),
        Err(error) => Err(error),
    }
}

/// The feed that `outline` stands for.
pub fn feed_of_outline(outline: &FeedOutline) -> (result: Result<ImportedFeed, ImportError>)
    ensures
        match result {
            Ok(feed) => imported_feed(outline@) == Ok::<ImportedFeedView, ImportError>(feed@),
            Err(error) => imported_feed(outline@) == Err::<ImportedFeedView, ImportError>(error),
        },
{
    match &outline.title {
        None => Err(ImportError::FeedTitle),
        Some(title) => match &outline.xml_url {
            None => Err(ImportError::FeedUrl),
            Some(xml_url) => match parse_url(xml_url.as_str()) {
                None => Err(ImportError::InvalidUrl),
                Some(url) => Ok(ImportedFeed { title: title.clone(), url }),
            },
        },
    }
}

/// The folder that `outline` stands for.
pub fn folder_of_outline(outline: &FolderOutline) -> (result: Result<
    (String, Vec<ImportedFeed>),
    ImportError,
>)
    ensures
        match result {
            Ok(folder) => imported_folder(outline@) == Ok::<
                (Seq<char>, Seq<ImportedFeedView>),
                ImportError,
            >(folder_view(folder)),
            Err(error) => imported_folder(outline@) == Err::<
                (Seq<char>, Seq<ImportedFeedView>),
                ImportError,
            >(error),
        },
{
    let ghost all = outline@.feeds;
    let mut feeds: Vec<ImportedFeed> = Vec::new();
    let mut i: usize = 0;
    assert(all.take(0) =~= Seq::<FeedOutlineView>::empty());
    assert(feeds_view(feeds@) =~= Seq::<ImportedFeedView>::empty());
    while i < outline.feeds.len()
        invariant
            i <= outline.feeds.len(),
            all == outline@.feeds,
            imported_feeds(all.take(i as int)) == Ok::<Seq<ImportedFeedView>, ImportError>(
                feeds_view(feeds@),
            ),
        decreases outline.feeds.len() - i,
    {
        let ghost so_far = feeds@;
        proof {
            assert(all.take(i + 1).drop_last() =~= all.take(i as int));
            assert(all.take(i + 1).last() == outline.feeds[i as int]@);
        }
        match feed_of_outline(&outline.feeds[i]) {
            Err(error) => {
                proof {
                    lemma_imported_feeds_fail(all, i + 1);
                }
                return Err(error);
            },
            Ok(feed) => {
                feeds.push(feed);
                assert(feeds_view(feeds@) =~= feeds_view(so_far).push(feed@));
            },
        }
        i += 1;
    }
    assert(all.take(i as int) =~= all);
    match &outline.title {
        None => Err(ImportError::FolderTitle),
        Some(title) => Ok((title.clone(), feeds)),
    }
}

/// The folders of feeds that `outlines` stand for.
pub fn folders_of_outlines(outlines: &Vec<FolderOutline>) -> (result: Result<
    Vec<(String, Vec<ImportedFeed>)>,
    ImportError,
>)
    ensures
        import_view(result) == imported_folders(outlines@.map_values(|folder: FolderOutline| folder@)),
{
    let ghost all = outlines@.map_values(|folder: FolderOutline| folder@);
    let mut folders: Vec<(String, Vec<ImportedFeed>)> = Vec::new();
    let mut i: usize = 0;
    assert(all.take(0) =~= Seq::<FolderOutlineView>::empty());
    assert(folders_view(folders@) =~= Seq::<(Seq<char>, Seq<ImportedFeedView>)>::empty());
    while i < outlines.len()
        invariant
            i <= outlines.len(),
            all == outlines@.map_values(|folder: FolderOutline| folder@),
            imported_folders(all.take(i as int)) == Ok::<
                Seq<(Seq<char>, Seq<ImportedFeedView>)>,
                ImportError,
            >(folders_view(folders@)),
        decreases outlines.len() - i,
    {
        let ghost so_far = folders@;
        proof {
            assert(all.take(i + 1).drop_last() =~= all.take(i as int));
            assert(all.take(i + 1).last() == outlines[i as int]@);
        }
        match folder_of_outline(&outlines[i]) {
            Err(error) => {
                proof {
                    lemma_imported_folders_fail(all, i + 1);
                }
                return Err(error);
            },
            Ok(folder) => {
                folders.push(folder);
                assert(folders_view(folders@) =~= folders_view(so_far).push(folder_view(folder)));
            },
        }
        i += 1;
    }
    assert(all.take(i as int) =~= all);
    Ok(folders)
}

/// Reads the outlines of an OPML file as folders of feeds: each top-level
/// outline is a folder, named by its title, and each outline directly below
/// it is a feed with a title and a URL.
///
/// Refused where the file is no OPML document, and where a folder or a feed
/// lacks its title or a feed lacks a URL that parses: the first such fault
/// in document order decides the error.
pub fn opml_to_feed_folders(outlines: Option<Vec<FolderOutline>>) -> (result: Result<
    Vec<(String, Vec<ImportedFeed>)>,
    ImportError,
>)
    ensures
        import_view(result) == imported_document(outlines_view(outlines)),
{
    match outlines {
        None => Err(ImportError::Document),
        Some(outlines) => folders_of_outlines(&outlines),
    }
}

/// Once a prefix of the outlines fails, the whole fails in the same way.
pub proof fn lemma_imported_feeds_fail(outlines: Seq<FeedOutlineView>, upto: int)
    requires
        0 <= upto <= outlines.len(),
        imported_feeds(outlines.take(upto)) is Err,
    ensures
        imported_feeds(outlines) == imported_feeds(outlines.take(upto)),
    decreases outlines.len() - upto,
{
    if upto < outlines.len() {
        assert(outlines.take(upto + 1).drop_last() =~= outlines.take(upto));
        lemma_imported_feeds_fail(outlines, upto + 1);
    } else {
        assert(outlines.take(upto) =~= outlines);
    }
}

/// Once a prefix of the folders fails, the whole fails in the same way.
pub proof fn lemma_imported_folders_fail(outlines: Seq<FolderOutlineView>, upto: int)
    requires
        0 <= upto <= outlines.len(),
        imported_folders(outlines.take(upto)) is Err,
    ensures
        imported_folders(outlines) == imported_folders(outlines.take(upto)),
    decreases outlines.len() - upto,
{
    if upto < outlines.len() {
        assert(outlines.take(upto + 1).drop_last() =~= outlines.take(upto));
        lemma_imported_folders_fail(outlines, upto + 1);
    } else {
        assert(outlines.take(upto) =~= outlines);
    }
}

} // verus!
