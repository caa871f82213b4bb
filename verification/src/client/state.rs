//! The error of bringing up the client's state.
use vstd::prelude::*;
use crate::store::error::{local_db_error_message, LocalDbError};

verus! {

/// What can fail while the client's state is set up. The thumbnail and I/O
/// variants carry the message of the underlying error.
#[derive(Debug, Clone)]
pub enum AppError {
    DbError(LocalDbError),
    ThumbnailError(String),
    ConfigError(String),
    IoError(String),
}

/// The human-readable message of an error.
pub open spec fn app_error_message(e: AppError) -> Seq<char> {
    match e {
        AppError::DbError(d) => "database error: "@ + local_db_error_message(d),
        AppError::ThumbnailError(s) => "thumbnail error: "@ + s@,
        AppError::ConfigError(s) => "config error: "@ + s@,
        AppError::IoError(s) => "I/O error: "@ + s@,
    }
}

impl AppError {
    /// The human-readable message of this error.
    pub fn to_string(&self) -> (s: String)
        ensures
            s@ == app_error_message(*self),
    {
        match self {
            AppError::DbError(d) => {
                let mut m = String::from_str("database error: ");
                let inner = d.to_string();
                m.append(inner.as_str());
                m
            },
            AppError::ThumbnailError(s) => {
                let mut m = String::from_str("thumbnail error: ");
                m.append(s.as_str());
                m
            },
            AppError::ConfigError(s) => {
                let mut m = String::from_str("config error: ");
                m.append(s.as_str());
                m
            },
            AppError::IoError(s) => {
                let mut m = String::from_str("I/O error: ");
                m.append(s.as_str());
                m
            },
        }
    }
}

} // verus!
