//! The service's configuration and the resources that its parts share.

use vstd::prelude::*;

use crate::database::models::{Feed, FeedId};
use crate::database::resolve::resolved;
use crate::database::{FeedTable, TableView};
use crate::fetcher::worker::QUEUE_CAPACITY;
use crate::fetcher::{
    offered, DispatchError, Enqueued, FetchTask, Fetcher, FetcherHandle, QueueView,
};
use crate::utils::{parse_url, parsed_url};

verus! {

/// The whole configuration.
#[derive(Clone, Debug)]
pub struct Config {
    pub server: ServerConfig,
    pub web: WebConfig,
}

/// How the server listens and where it keeps its data.
#[derive(Clone, Debug)]
pub struct ServerConfig {
    pub port: u16,
    pub database_url: String,
    /// The key that signs session cookies, in base64.
    pub session_secret: String,
}

/// What the web pages need to know.
#[derive(Clone, Debug)]
pub struct WebConfig {
    pub base_url: String,
}

/// How many bytes a session key needs at least.
pub const SESSION_KEY_MIN_LENGTH: usize = 64;

/// Why the configuration cannot be used.
#[derive(Clone, Copy, Debug, PartialEq, Eq, Structural)]
pub enum ConfigError {
    /// The session secret is no base64.
    SecretEncoding,
    /// The session secret decodes to fewer bytes than a key needs.
    SecretTooShort,
}

/// `base64::DecodeError`: why a text is no base64. It is carried through
/// unread.
#[verifier::external_type_specification]
#[verifier::external_body]
pub struct ExDecodeError(base64::DecodeError);

/// The bytes that `text` encodes in standard base64 with padding; `None`
/// where `text` is no such encoding.
pub uninterp spec fn base64_decoded(text: Seq<char>) -> Option<Seq<u8>>;

/// Calls `base64::Engine::decode` of the engine
/// `base64::prelude::BASE64_STANDARD` on the bytes of `text`.
///
/// The contract claims only that the outcome is a function of the text.
#[verifier::external_body]
fn decode_standard(text: &str) -> (result: Result<Vec<u8>, base64::DecodeError>)
    ensures
        match result {
            Ok(bytes) => base64_decoded(text@) == Some(bytes@),
            Err(_) => base64_decoded(text@) is None,
        },
{
    base64::Engine::decode(&base64::prelude::BASE64_STANDARD, text.as_bytes())
}

/// The session key that decoding the secret gave, if it is one.
pub open spec fn session_key_of(decoded: Option<Seq<u8>>) -> Result<Seq<u8>, ConfigError> {
    match decoded {
        None => Err(ConfigError::SecretEncoding),
        Some(bytes) => if bytes.len() < SESSION_KEY_MIN_LENGTH {
            Err(ConfigError::SecretTooShort)
        } else {
            Ok(bytes)
        },
    }
}

/// Accepts decoded bytes as a session key where they are long enough.
pub fn check_session_key(decoded: Option<Vec<u8>>) -> (result: Result<Vec<u8>, ConfigError>)
    ensures
        match result {
            Ok(key) => session_key_of(
                match decoded {
                    Some(bytes) => Some(bytes@),
                    None => None,
                },
            ) == Ok::<Seq<u8>, ConfigError>(key@),
            Err(error) => session_key_of(
                match decoded {
                    Some(bytes) => Some(bytes@),
                    None => None,
                },
            ) == Err::<Seq<u8>, ConfigError>(error),
        },
{
    match decoded {
        None => Err(ConfigError::SecretEncoding),
        Some(bytes) => if bytes.len() < SESSION_KEY_MIN_LENGTH {
            Err(ConfigError::SecretTooShort)
        } else {
            Ok(bytes)
        },
    }
}

impl ServerConfig {
    /// The key that signs session cookies: the secret, decoded from base64.
    /// Refused where the secret is no base64 or decodes to fewer than
    /// `SESSION_KEY_MIN_LENGTH` bytes.
    pub fn session_key(&self) -> (result: Result<Vec<u8>, ConfigError>)
        ensures
            match result {
                Ok(key) => session_key_of(base64_decoded(self.session_secret@)) == Ok::<
                    Seq<u8>,
                    ConfigError,
                >(key@),
                Err(error) => session_key_of(base64_decoded(self.session_secret@)) == Err::<
                    Seq<u8>,
                    ConfigError,
                >(error),
            },
    {
        let decoded = match decode_standard(self.session_secret.as_str()) {
            Ok(bytes) => Some(bytes),
            Err(_) => None,
        };
        check_session_key(decoded)
    }
}

/// Why a feed could not be registered.
#[derive(Clone, Copy, Debug, PartialEq, Eq, Structural)]
pub enum RegisterError {
    /// The text is no absolute URL.
    InvalidUrl,
    /// The feed table could not resolve the URL.
    Store,
    /// The queue is closed: the feed is registered, but nobody will fetch it.
    Dispatch,
}

/// What the parts of the service share: the feed table and the way into the
/// fetch pipeline.
pub struct Ressources {
    pub database_handle: FeedTable,
    pub fetcher_handle: FetcherHandle,
}

/// What registering the URL `url` comes to: the table after the URL was
/// resolved, the queue after a fetch of the feed was offered, and the result.
///
/// A feed that the queue has no room for is registered all the same: its
/// task comes back for the caller to offer again.
pub open spec fn registered(table: TableView, queue: QueueView, url: String) -> (
    TableView,
    QueueView,
    Result<(FeedId, Enqueued), RegisterError>,
) {
    match resolved(table, url@).1 {
        Err(_) => (table, queue, Err(RegisterError::Store)),
        Ok(feed_id) => {
            let task = FetchTask { feed_id, url };
            match offered(queue, task).1 {
                Err(_) => (resolved(table, url@).0, queue, Err(RegisterError::Dispatch)),
                Ok(enqueued) => (
                    resolved(table, url@).0,
                    offered(queue, task).0,
                    Ok((feed_id, enqueued)),
                ),
            }
        },
    }
}

impl Ressources {
    /// The resources of a service that has seen nothing yet: an empty feed
    /// table and an open, empty queue with room for `QUEUE_CAPACITY` tasks;
    /// and the idle worker that will serve the queue.
    pub fn init() -> (started: (Ressources, Fetcher))
        ensures
            started.0.database_handle@.rows.len() == 0,
            started.0.database_handle@.next_id == 1,
            started.0.fetcher_handle@ == (QueueView {
                pending: Seq::empty(),
                capacity: QUEUE_CAPACITY as nat,
                closed: false,
            }),
            started.1@ is Idle,
    {
        let (fetcher_handle, fetcher) = Fetcher::setup();
        (Ressources { database_handle: FeedTable::new(), fetcher_handle }, fetcher)
    }

    /// Offers a fetch of the feed `feed_id` at `url` to the pipeline.
    pub fn fetch_url(&mut self, feed_id: FeedId, url: String) -> (result: Result<
        Enqueued,
        DispatchError,
    >)
        ensures
            (final(self).fetcher_handle@, result) == offered(
                old(self).fetcher_handle@,
                FetchTask { feed_id, url },
            ),
            final(self).database_handle == old(self).database_handle,
    {
        self.fetcher_handle.fetch_feed(FetchTask { feed_id, url })
    }

    /// Registers the feed at `url`, which is a serialized URL: resolves it to
    /// its feed, creating the feed as `Fetching` where it is new, and offers a
    /// fetch of it to the pipeline.
    pub fn register_url(&mut self, url: String) -> (result: Result<
        (FeedId, Enqueued),
        RegisterError,
    >)
        ensures
            (final(self).database_handle@, final(self).fetcher_handle@, result) == registered(
                old(self).database_handle@,
                old(self).fetcher_handle@,
                url,
            ),
    {
        match Feed::resolve_or_create(url.as_str(), &mut self.database_handle) {
            Err(_) => Err(RegisterError::Store),
            Ok(feed_id) => match self.fetch_url(feed_id, url) {
                Err(_) => Err(RegisterError::Dispatch),
                Ok(enqueued) => Ok((feed_id, enqueued)),
            },
        }
    }

    /// Registers the feed that `text` names. Refused, with nothing changed,
    /// where `text` is no absolute URL.
    pub fn register(&mut self, text: &str) -> (result: Result<(FeedId, Enqueued), RegisterError>)
        ensures
            match parsed_url(text@) {
                None => {
                    &&& result == Err::<(FeedId, Enqueued), RegisterError>(RegisterError::InvalidUrl)
                    &&& final(self).database_handle@ == old(self).database_handle@
                    &&& final(self).fetcher_handle@ == old(self).fetcher_handle@
                },
                Some(serialized) => exists|url: String|
                    {
                        &&& url@ == serialized
                        &&& (final(self).database_handle@, final(self).fetcher_handle@, result)
                            == #[trigger] registered(
                            old(self).database_handle@,
                            old(self).fetcher_handle@,
                            url,
                        )
                    },
            },
    {
        match parse_url(text) {
            None => Err(RegisterError::InvalidUrl),
            Some(url) => self.register_url(url),
        }
    }
}

} // verus!
