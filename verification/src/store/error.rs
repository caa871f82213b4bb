//! Errors of the local database.
use vstd::prelude::*;

verus! {

/// What went wrong with the local database. The query and I/O variants carry
/// the message of the underlying error.
#[derive(Debug, Clone)]
pub enum LocalDbError {
    KeychainUnavailable,
    InvalidKey,
    MigrationFailed(String),
    QueryError(String),
    Io(String),
}

/// The human-readable message of an error.
pub open spec fn local_db_error_message(e: LocalDbError) -> Seq<char> {
    match e {
        LocalDbError::KeychainUnavailable => "keychain unavailable"@,
        LocalDbError::InvalidKey => "invalid database key"@,
        LocalDbError::MigrationFailed(s) => "migration failed: "@ + s@,
        LocalDbError::QueryError(s) => "query error: "@ + s@,
        LocalDbError::Io(s) => "I/O error: "@ + s@,
    }
}

impl LocalDbError {
    /// The human-readable message of this error.
    pub fn to_string(&self) -> (s: String)
        ensures
            s@ == local_db_error_message(*self),
    {
        match self {
            LocalDbError::KeychainUnavailable => String::from_str("keychain unavailable"),
            LocalDbError::InvalidKey => String::from_str("invalid database key"),
            LocalDbError::MigrationFailed(s) => {
                let mut m = String::from_str("migration failed: ");
                m.append(s.as_str());
                m
            },
            LocalDbError::QueryError(s) => {
                let mut m = String::from_str("query error: ");
                m.append(s.as_str());
                m
            },
            LocalDbError::Io(s) => {
                let mut m = String::from_str("I/O error: ");
                m.append(s.as_str());
                m
            },
        }
    }

    /// Whether the error wraps an underlying error: the query and I/O
    /// errors do.
    pub fn has_source(&self) -> (b: bool)
        ensures
            b <==> (self is QueryError || self is Io),
    {
        match self {
            LocalDbError::QueryError(_) | LocalDbError::Io(_) => true,
            _ => false,
        }
    }
}

} // verus!
