//! The error that the desktop client's commands report to the interface.
use vstd::prelude::*;
use crate::crypto::error::{crypto_error_message, CryptoError};
use crate::sync::error::{sync_error_message, SyncError};
use crate::common::result::io_error_message;
use crate::client::state::{app_error_message, AppError};
use crate::store::error::{local_db_error_message, LocalDbError};
use vstd::std_specs::convert::FromSpecImpl;

verus! {

/// What a command of the client reports when it fails; each variant carries
/// the message of the underlying error.
#[derive(Debug, Clone)]
pub enum CommandError {
    NotLoggedIn,
    SyncError(String),
    DbError(String),
    ZooError(String),
    CryptoError(String),
    ThumbnailError(String),
    Io(String),
    Validation(String),
    AppError(String),
}

/// The human-readable message of an error.
pub open spec fn command_error_message(e: CommandError) -> Seq<char> {
    match e {
        CommandError::NotLoggedIn => "not logged in"@,
        CommandError::SyncError(s) => "sync error: "@ + s@,
        CommandError::DbError(s) => "database error: "@ + s@,
        CommandError::ZooError(s) => "zoo error: "@ + s@,
        CommandError::CryptoError(s) => "crypto error: "@ + s@,
        CommandError::ThumbnailError(s) => "thumbnail error: "@ + s@,
        CommandError::Io(s) => "I/O error: "@ + s@,
        CommandError::Validation(s) => "validation error: "@ + s@,
        CommandError::AppError(s) => "app error: "@ + s@,
    }
}

/// The name of an error's variant, as it is tagged when sent to the interface.
pub open spec fn command_error_tag(e: CommandError) -> Seq<char> {
    match e {
        CommandError::NotLoggedIn => "NotLoggedIn"@,
        CommandError::SyncError(_) => "SyncError"@,
        CommandError::DbError(_) => "DbError"@,
        CommandError::ZooError(_) => "ZooError"@,
        CommandError::CryptoError(_) => "CryptoError"@,
        CommandError::ThumbnailError(_) => "ThumbnailError"@,
        CommandError::Io(_) => "Io"@,
        CommandError::Validation(_) => "Validation"@,
        CommandError::AppError(_) => "AppError"@,
    }
}

fn prefixed(prefix: &str, s: &String) -> (m: String)
    ensures
        m@ == prefix@ + s@,
{
    let mut m = String::from_str(prefix);
    m.append(s.as_str());
    m
}

impl CommandError {
    /// The human-readable message of this error.
    pub fn to_string(&self) -> (s: String)
        ensures
            s@ == command_error_message(*self),
    {
        match self {
            CommandError::NotLoggedIn => String::from_str("not logged in"),
            CommandError::SyncError(s) => prefixed("sync error: ", s),
            CommandError::DbError(s) => prefixed("database error: ", s),
            CommandError::ZooError(s) => prefixed("zoo error: ", s),
            CommandError::CryptoError(s) => prefixed("crypto error: ", s),
            CommandError::ThumbnailError(s) => prefixed("thumbnail error: ", s),
            CommandError::Io(s) => prefixed("I/O error: ", s),
            CommandError::Validation(s) => prefixed("validation error: ", s),
            CommandError::AppError(s) => prefixed("app error: ", s),
        }
    }

    /// The name of this error's variant.
    pub fn tag(&self) -> (s: String)
        ensures
            s@ == command_error_tag(*self),
    {
        match self {
            CommandError::NotLoggedIn => String::from_str("NotLoggedIn"),
            CommandError::SyncError(_) => String::from_str("SyncError"),
            CommandError::DbError(_) => String::from_str("DbError"),
            CommandError::ZooError(_) => String::from_str("ZooError"),
            CommandError::CryptoError(_) => String::from_str("CryptoError"),
            CommandError::ThumbnailError(_) => String::from_str("ThumbnailError"),
            CommandError::Io(_) => String::from_str("Io"),
            CommandError::Validation(_) => String::from_str("Validation"),
            CommandError::AppError(_) => String::from_str("AppError"),
        }
    }
}

impl From<CryptoError> for CommandError {
    fn from(e: CryptoError) -> (r: CommandError)
        ensures
            r matches CommandError::CryptoError(m) && m@ == crypto_error_message(e),
    {
        CommandError::CryptoError(e.to_string())
    }
}

/// Conversions into `CommandError` carry the source's message in a new
/// `String`; what they give is stated on each `from` itself, not through
/// `from_spec`, which would have to name that `String`.
impl FromSpecImpl<CryptoError> for CommandError {
    open spec fn obeys_from_spec() -> bool {
        false
    }

    open spec fn from_spec(v: CryptoError) -> CommandError {
        CommandError::CryptoError(vstd::pervasive::arbitrary())
    }
}

impl From<SyncError> for CommandError {
    fn from(e: SyncError) -> (r: CommandError)
        ensures
            r matches CommandError::SyncError(m) && m@ == sync_error_message(e),
    {
        CommandError::SyncError(e.to_string())
    }
}

impl FromSpecImpl<SyncError> for CommandError {
    open spec fn obeys_from_spec() -> bool {
        false
    }

    open spec fn from_spec(v: SyncError) -> CommandError {
        CommandError::SyncError(vstd::pervasive::arbitrary())
    }
}

impl From<std::io::Error> for CommandError {
    fn from(e: std::io::Error) -> (r: CommandError)
        ensures
            r is Io,
    {
        CommandError::Io(io_error_message(&e))
    }
}

impl FromSpecImpl<std::io::Error> for CommandError {
    open spec fn obeys_from_spec() -> bool {
        false
    }

    open spec fn from_spec(v: std::io::Error) -> CommandError {
        CommandError::Io(vstd::pervasive::arbitrary())
    }
}

impl From<LocalDbError> for CommandError {
    fn from(e: LocalDbError) -> (r: CommandError)
        ensures
            r matches CommandError::DbError(m) && m@ == local_db_error_message(e),
    {
        CommandError::DbError(e.to_string())
    }
}

impl FromSpecImpl<LocalDbError> for CommandError {
    open spec fn obeys_from_spec() -> bool {
        false
    }

    open spec fn from_spec(v: LocalDbError) -> CommandError {
        CommandError::DbError(vstd::pervasive::arbitrary())
    }
}

impl From<AppError> for CommandError {
    fn from(e: AppError) -> (r: CommandError)
        ensures
            r matches CommandError::AppError(m) && m@ == app_error_message(e),
    {
        CommandError::AppError(e.to_string())
    }
}

impl FromSpecImpl<AppError> for CommandError {
    open spec fn obeys_from_spec() -> bool {
        false
    }

    open spec fn from_spec(v: AppError) -> CommandError {
        CommandError::AppError(vstd::pervasive::arbitrary())
    }
}

} // verus!
