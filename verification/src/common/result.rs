//! Adding context to errors on their way up.
use vstd::prelude::*;
use crate::common::error::{common_error_message, CommonError};

verus! {

/// Results of the application's shared layer.
pub type Result<T> = core::result::Result<T, CommonError>;

#[verifier::external_type_specification]
#[verifier::external_body]
pub struct ExIoError(std::io::Error);

/// The message of an I/O error (its `Display`). Nothing is claimed of the
/// text: it comes from the operating system.
#[verifier::external_body]
pub(crate) fn io_error_message(e: &std::io::Error) -> String {
    e.to_string()
}

/// Adds context to the error of a result whose error comes from outside.
pub trait ResultExt<T, E>: Sized {
    /// Turns an error into a `Parse` error whose message starts with `msg`.
    fn context(self, msg: &str) -> core::result::Result<T, CommonError>;

    /// Like `context`, with the message computed only when there is an error.
    fn with_context<F: FnOnce() -> String>(self, f: F) -> core::result::Result<T, CommonError>
        requires
            f.requires(()),
    ;
}

impl<T> ResultExt<T, std::io::Error> for core::result::Result<T, std::io::Error> {
    fn context(self, msg: &str) -> (r: core::result::Result<T, CommonError>)
        ensures
            self matches Ok(v) ==> r == Ok::<T, CommonError>(v),
            self is Err ==> (r matches Err(CommonError::Parse(m)) && exists|cause: Seq<char>| m@ == msg@ + ": "@ + cause),
    {
        match self {
            Ok(v) => Ok(v),
            Err(e) => {
                let mut m = String::from_str(msg);
                m.append(": ");
                let cause = io_error_message(&e);
                m.append(cause.as_str());
                Err(CommonError::Parse(m))
            },
        }
    }

    fn with_context<F: FnOnce() -> String>(self, f: F) -> (r: core::result::Result<T, CommonError>)
        ensures
            self matches Ok(v) ==> r == Ok::<T, CommonError>(v),
            self is Err ==> (r matches Err(CommonError::Parse(m)) && exists|prefix: String, cause: Seq<char>|
                f.ensures((), prefix) && m@ == prefix@ + ": "@ + cause),
    {
        match self {
            Ok(v) => Ok(v),
            Err(e) => {
                let mut m = f();
                m.append(": ");
                let cause = io_error_message(&e);
                m.append(cause.as_str());
                Err(CommonError::Parse(m))
            },
        }
    }
}

/// Adds context to the error of a result of the shared layer.
pub trait CommonResultExt<T>: Sized {
    /// Turns an error into a `Parse` error: `msg`, a colon, and the error's
    /// message.
    fn context(self, msg: &str) -> Result<T>;
}

impl<T> CommonResultExt<T> for Result<T> {
    fn context(self, msg: &str) -> (r: Result<T>)
        ensures
            self matches Ok(v) ==> r == Ok::<T, CommonError>(v),
            self matches Err(e) ==> (r matches Err(CommonError::Parse(m)) && m@ == msg@ + ": "@ + common_error_message(e)),
    {
        match self {
            Ok(v) => Ok(v),
            Err(e) => {
                let mut m = String::from_str(msg);
                m.append(": ");
                let inner = e.to_string();
                m.append(inner.as_str());
                Err(CommonError::Parse(m))
            },
        }
    }
}

} // verus!
