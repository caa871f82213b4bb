//! Errors of metadata encryption.
use vstd::prelude::*;
use crate::crypto::error::{crypto_error_message, CryptoError};

verus! {

/// What went wrong while encrypting or decrypting metadata. The JSON variant
/// carries the serializer's message.
#[derive(Debug, Clone)]
pub enum MetadataError {
    Crypto(CryptoError),
    Serde(String),
    InvalidUtf8,
}

/// The human-readable message of an error.
pub open spec fn metadata_error_message(e: MetadataError) -> Seq<char> {
    match e {
        MetadataError::Crypto(c) => "crypto error: "@ + crypto_error_message(c),
        MetadataError::Serde(s) => "JSON serialization error: "@ + s@,
        MetadataError::InvalidUtf8 => "invalid UTF-8 in metadata"@,
    }
}

impl MetadataError {
    /// The human-readable message of this error.
    pub fn to_string(&self) -> (s: String)
        ensures
            s@ == metadata_error_message(*self),
    {
        match self {
            MetadataError::Crypto(c) => {
                let mut m = String::from_str("crypto error: ");
                let inner = c.to_string();
                m.append(inner.as_str());
                m
            },
            MetadataError::Serde(s) => {
                let mut m = String::from_str("JSON serialization error: ");
                m.append(s.as_str());
                m
            },
            MetadataError::InvalidUtf8 => String::from_str("invalid UTF-8 in metadata"),
        }
    }
}

} // verus!
