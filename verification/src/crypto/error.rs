//! Errors of the cryptographic operations.
use vstd::prelude::*;

verus! {

/// What went wrong in a cryptographic operation.
#[derive(Debug, Clone, PartialEq, Eq)]
pub enum CryptoError {
    MacMismatch,
    UnsupportedCipher(String),
    AllocationFailed,
    InvalidKey,
    InvalidNonce,
    Base64Error(String),
    HexError(String),
}

/// The human-readable message of an error.
pub open spec fn crypto_error_message(e: CryptoError) -> Seq<char> {
    match e {
        CryptoError::MacMismatch => "MAC verification failed"@,
        CryptoError::UnsupportedCipher(s) => "unsupported cipher: "@ + s@,
        CryptoError::AllocationFailed => "memory allocation failed for Argon2id"@,
        CryptoError::InvalidKey => "invalid key length"@,
        CryptoError::InvalidNonce => "invalid nonce length"@,
        CryptoError::Base64Error(s) => "base64 decode error: "@ + s@,
        CryptoError::HexError(s) => "hex decode error: "@ + s@,
    }
}

impl CryptoError {
    /// The human-readable message of this error.
    pub fn to_string(&self) -> (s: String)
        ensures
            s@ == crypto_error_message(*self),
    {
        match self {
            CryptoError::MacMismatch => String::from_str("MAC verification failed"),
            CryptoError::UnsupportedCipher(s) => {
                let mut m = String::from_str("unsupported cipher: ");
                m.append(s.as_str());
                m
            },
            CryptoError::AllocationFailed => String::from_str("memory allocation failed for Argon2id"),
            CryptoError::InvalidKey => String::from_str("invalid key length"),
            CryptoError::InvalidNonce => String::from_str("invalid nonce length"),
            CryptoError::Base64Error(s) => {
                let mut m = String::from_str("base64 decode error: ");
                m.append(s.as_str());
                m
            },
            CryptoError::HexError(s) => {
                let mut m = String::from_str("hex decode error: ");
                m.append(s.as_str());
                m
            },
        }
    }

    /// The lower-level error that caused this one: there never is one.
    pub fn source(&self) -> (r: Option<&CryptoError>)
        ensures
            r is None,
    {
        None
    }
}

} // verus!
