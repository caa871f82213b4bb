//! Encrypting a file's metadata (its JSON serialization) under the file key.
use vstd::prelude::*;
use crate::crypto::aead::{stream_decrypt, stream_encrypt, stream_opened, stream_plaintext_ok, stream_sealed};
use crate::crypto::types::{Header24, Key256};
use crate::metadata::error::MetadataError;

verus! {

/// Encrypts serialized metadata with the stream construction under the file
/// key; the header is returned beside the ciphertext.
pub fn encrypt_metadata(metadata_json: &[u8], file_key: &Key256) -> (r: (Header24, Vec<u8>))
    requires
        stream_plaintext_ok(metadata_json@.len()),
    ensures
        stream_sealed(file_key@, r.0@, metadata_json@, r.1@),
{
    stream_encrypt(metadata_json, file_key)
}

/// The serialized metadata that decryption gives: a failed authentication is
/// a `Crypto(MacMismatch)` error.
pub open spec fn metadata_opened(file_key: Seq<u8>, header: Seq<u8>, ciphertext: Seq<u8>) -> Result<Seq<u8>, MetadataError> {
    match stream_opened(file_key, header, ciphertext) {
        Ok(p) => Ok(p),
        Err(e) => Err(MetadataError::Crypto(e)),
    }
}

/// The view of a metadata result.
pub open spec fn metadata_result_bytes(r: Result<Vec<u8>, MetadataError>) -> Result<Seq<u8>, MetadataError> {
    match r {
        Ok(v) => Ok(v@),
        Err(e) => Err(e),
    }
}

/// Decrypts encrypted metadata back to its serialization.
pub fn decrypt_metadata(header: &Header24, ciphertext: &[u8], file_key: &Key256) -> (r: Result<Vec<u8>, MetadataError>)
    ensures
        metadata_result_bytes(r) == metadata_opened(file_key@, header@, ciphertext@),
{
    match stream_decrypt(header, ciphertext, file_key) {
        Ok(p) => Ok(p),
        Err(e) => Err(MetadataError::Crypto(e)),
    }
}

/// Decrypting encrypted metadata under the same file key gives back the
/// serialization that was encrypted.
pub proof fn lemma_metadata_roundtrip(file_key: Seq<u8>, header: Seq<u8>, metadata_json: Seq<u8>, ciphertext: Seq<u8>)
    requires
        stream_sealed(file_key, header, metadata_json, ciphertext),
    ensures
        metadata_opened(file_key, header, ciphertext) == Ok::<Seq<u8>, MetadataError>(metadata_json),
{
}

} // verus!
