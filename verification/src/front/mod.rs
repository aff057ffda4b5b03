//! What the web front end decides: who is asking, where to send them, and
//! what to answer.

pub mod auth;
pub mod error;
pub mod feeds;
pub mod htmx;
pub mod store;
