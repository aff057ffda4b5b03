//! What the session store decides about the answers of its table.

use vstd::prelude::*;

verus! {

/// Why the session store failed.
#[derive(Clone, Copy, Debug, PartialEq, Eq, Structural)]
pub enum SqliteStoreError {
    /// A stored session could not be decoded.
    RmpDecode,
    /// A session could not be encoded.
    RmpEncode,
    /// No database connection could be had.
    DbPool,
    /// The database refused the statement.
    Diesel,
}

/// The kinds of failure that the session layer tells apart.
#[derive(Clone, Copy, Debug, PartialEq, Eq, Structural)]
pub enum SessionFailure {
    Decode,
    Encode,
    Backend,
}

/// What the table answered to the insert of a session.
#[derive(Clone, Copy, Debug, PartialEq, Eq, Structural)]
pub enum SessionInsert {
    /// The statement ran and changed this many rows.
    Rows(usize),
    /// A session with that identifier exists.
    UniqueViolation,
    /// The statement failed otherwise.
    Failure,
}

impl SqliteStoreError {
    /// The kind under which the session layer learns of this failure: both
    /// faults of the database count as the backend's.
    pub fn kind(&self) -> (kind: SessionFailure)
        ensures
            kind == match *self {
                SqliteStoreError::RmpDecode => SessionFailure::Decode,
                SqliteStoreError::RmpEncode => SessionFailure::Encode,
                SqliteStoreError::DbPool => SessionFailure::Backend,
                SqliteStoreError::Diesel => SessionFailure::Backend,
            },
    {
        match self {
            SqliteStoreError::RmpDecode => SessionFailure::Decode,
            SqliteStoreError::RmpEncode => SessionFailure::Encode,
            _ => SessionFailure::Backend,
        }
    }
}

/// Whether a session was created: yes where exactly one row was inserted, no
/// where its identifier is taken, so that the caller draws a new identifier
/// and tries again.
pub fn session_inserted(answer: SessionInsert) -> (result: Result<bool, SqliteStoreError>)
    ensures
        result == match answer {
            SessionInsert::Rows(rows) => Ok::<bool, SqliteStoreError>(rows == 1),
            SessionInsert::UniqueViolation => Ok::<bool, SqliteStoreError>(false),
            SessionInsert::Failure => Err::<bool, SqliteStoreError>(SqliteStoreError::Diesel),
        },
{
    match answer {
        SessionInsert::Rows(rows) => Ok(rows == 1),
        SessionInsert::UniqueViolation => Ok(false),
        SessionInsert::Failure => Err(SqliteStoreError::Diesel),
    }
}

} // verus!
