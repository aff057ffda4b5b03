//! What goes wrong while a request is served, and what the client is told.

use vstd::prelude::*;

verus! {

/// Why the caller could not be told who they are.
#[derive(Clone, Copy, Debug, PartialEq, Eq, Structural)]
pub enum AuthError {
    /// The request presented nothing that belongs to a user.
    NotAuthenticated,
    /// The session could not be read or written.
    Session,
    /// No database connection could be had.
    DbPool,
}

/// Why a route could not answer as asked.
#[derive(Clone, Copy, Debug)]
pub enum RouteError {
    /// A fault of the program, in fixed words.
    Static(&'static str),
    /// No database connection could be had.
    DbPool,
    /// The caller could not be told who they are.
    Auth(AuthError),
    /// A page could not be rendered.
    Template,
    /// Anything else that went wrong on the server's side.
    Other,
    /// The client sent something unusable: the words say what.
    User(&'static str),
    /// The client sent something unusable, with a cause that the client is
    /// not told.
    UserOpaque(&'static str),
}

/// The status code for a plain server fault.
pub const INTERNAL_SERVER_ERROR: u16 = 500;

/// The status code for a request that the client has to fix.
pub const BAD_REQUEST: u16 = 400;

/// The status code for a request that presented no valid credentials.
pub const UNAUTHORIZED: u16 = 401;

/// The words for a caller who is not authenticated.
pub open spec fn not_authenticated_text() -> Seq<char> {
    "user is not authenticated"@
}

/// The status code that answers an authentication error: the caller's own
/// fault is told as such, a fault of the server is not explained.
pub open spec fn auth_status(error: AuthError) -> u16 {
    match error {
        AuthError::NotAuthenticated => UNAUTHORIZED,
        AuthError::Session => INTERNAL_SERVER_ERROR,
        AuthError::DbPool => INTERNAL_SERVER_ERROR,
    }
}

/// The status code that answers a route error.
pub open spec fn route_status(error: RouteError) -> u16 {
    match error {
        RouteError::Auth(error) => auth_status(error),
        RouteError::User(_) => BAD_REQUEST,
        RouteError::UserOpaque(_) => BAD_REQUEST,
        _ => INTERNAL_SERVER_ERROR,
    }
}

/// The words that the client is shown for a route error: only what was the
/// client's own doing is explained.
pub open spec fn route_message(error: RouteError) -> Option<Seq<char>> {
    match error {
        RouteError::Auth(AuthError::NotAuthenticated) => Some(not_authenticated_text()),
        RouteError::User(words) => Some(words@),
        RouteError::UserOpaque(words) => Some(words@),
        _ => None,
    }
}

impl AuthError {
    /// The status code that answers this error.
    pub fn status(&self) -> (code: u16)
        ensures
            code == auth_status(*self),
    {
        match self {
            AuthError::NotAuthenticated => UNAUTHORIZED,
            _ => INTERNAL_SERVER_ERROR,
        }
    }

    /// The words that the client is shown, if any.
    pub fn message(&self) -> (words: Option<&'static str>)
        ensures
            match words {
                Some(words) => *self == AuthError::NotAuthenticated && words@
                    == not_authenticated_text(),
                None => *self != AuthError::NotAuthenticated,
            },
    {
        match self {
            AuthError::NotAuthenticated => Some("user is not authenticated"),
            _ => None,
        }
    }
}

impl RouteError {
    /// The status code that answers this error.
    pub fn status(&self) -> (code: u16)
        ensures
            code == route_status(*self),
    {
        match self {
            RouteError::Auth(error) => error.status(),
            RouteError::User(_) => BAD_REQUEST,
            RouteError::UserOpaque(_) => BAD_REQUEST,
            _ => INTERNAL_SERVER_ERROR,
        }
    }

    /// The words that the client is shown, if any.
    pub fn message(&self) -> (words: Option<&'static str>)
        ensures
            match words {
                Some(words) => route_message(*self) == Some(words@),
                None => route_message(*self) is None,
            },
    {
        match self {
            RouteError::Auth(error) => error.message(),
            RouteError::User(words) => Some(*words),
            RouteError::UserOpaque(words) => Some(*words),
            _ => None,
        }
    }
}

} // verus!
