//! Errors of synchronization with the server.
use vstd::prelude::*;
use crate::crypto::error::{crypto_error_message, CryptoError};
use crate::text::{decimal, decimal_string};

verus! {

/// What went wrong during a sync. The network and database variants carry the
/// message of the underlying error.
#[derive(Debug, Clone)]
pub enum SyncError {
    NetworkError(String),
    DecryptionFailed { file_id: i64, source: CryptoError },
    DbError(String),
    CursorError(String),
    Offline,
    ParseError(String),
}

/// The human-readable message of an error.
pub open spec fn sync_error_message(e: SyncError) -> Seq<char> {
    match e {
        SyncError::NetworkError(s) => "network error: "@ + s@,
        SyncError::DecryptionFailed { file_id, source } => "decryption failed for file "@ + decimal(file_id as int)
            + ": "@ + crypto_error_message(source),
        SyncError::DbError(s) => "database error: "@ + s@,
        SyncError::CursorError(s) => "cursor error: "@ + s@,
        SyncError::Offline => "offline mode: no network available"@,
        SyncError::ParseError(s) => "parse error: "@ + s@,
    }
}

impl SyncError {
    /// The human-readable message of this error.
    pub fn to_string(&self) -> (s: String)
        ensures
            s@ == sync_error_message(*self),
    {
        match self {
            SyncError::NetworkError(s) => {
                let mut m = String::from_str("network error: ");
                m.append(s.as_str());
                m
            },
            SyncError::DecryptionFailed { file_id, source } => {
                let mut m = String::from_str("decryption failed for file ");
                let id = decimal_string(*file_id as i128);
                m.append(id.as_str());
                m.append(": ");
                let inner = source.to_string();
                m.append(inner.as_str());
                m
            },
            SyncError::DbError(s) => {
                let mut m = String::from_str("database error: ");
                m.append(s.as_str());
                m
            },
            SyncError::CursorError(s) => {
                let mut m = String::from_str("cursor error: ");
                m.append(s.as_str());
                m
            },
            SyncError::Offline => String::from_str("offline mode: no network available"),
            SyncError::ParseError(s) => {
                let mut m = String::from_str("parse error: ");
                m.append(s.as_str());
                m
            },
        }
    }
}

} // verus!
