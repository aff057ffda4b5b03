//! Feed ingestion for a small reader service.
//!
//! A feed is registered once per URL, a fetch for it is queued on a bounded
//! dispatcher, and a single worker takes one task at a time from the request
//! to the record of its outcome as the feed's status.
//!
//! The library decides; it does not wait, send or read. Whoever runs it makes
//! the requests, parses the bodies and the uploads, and writes to the
//! database.

pub mod config;
pub mod database;
pub mod fetcher;
pub mod front;
pub mod text;
pub mod utils;
