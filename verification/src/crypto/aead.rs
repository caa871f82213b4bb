//! Authenticated encryption: the secretbox construction (XSalsa20-Poly1305),
//! used for keys and names, and the stream construction (XChaCha20-Poly1305),
//! used for file contents and metadata.
use vstd::prelude::*;
use crate::crypto::error::CryptoError;
use crate::crypto::primitives::{
    random_bytes, spec_xchacha20poly1305_decrypt, spec_xchacha20poly1305_encrypt,
    spec_xsalsa20poly1305_decrypt, spec_xsalsa20poly1305_encrypt, xchacha20poly1305_decrypt,
    xchacha20poly1305_encrypt, xsalsa20poly1305_decrypt, xsalsa20poly1305_encrypt,
};
use crate::crypto::types::{Header24, Key256, Nonce24};

verus! {

/// The view of a byte result.
pub open spec fn result_bytes(r: Result<Vec<u8>, CryptoError>) -> Result<Seq<u8>, CryptoError> {
    match r {
        Ok(v) => Ok(v@),
        Err(e) => Err(e),
    }
}

/// `ciphertext` is the secretbox encryption of `plaintext` under `key` and `nonce`.
pub open spec fn secretbox_sealed(key: Seq<u8>, nonce: Seq<u8>, plaintext: Seq<u8>, ciphertext: Seq<u8>) -> bool {
    &&& ciphertext == spec_xsalsa20poly1305_encrypt(key, nonce, plaintext)
    &&& ciphertext.len() == plaintext.len() + 16
    &&& spec_xsalsa20poly1305_decrypt(key, nonce, ciphertext) == Some(plaintext)
}

/// What secretbox decryption of `ciphertext` under `key` and `nonce` gives.
pub open spec fn secretbox_opened(key: Seq<u8>, nonce: Seq<u8>, ciphertext: Seq<u8>) -> Result<Seq<u8>, CryptoError> {
    match spec_xsalsa20poly1305_decrypt(key, nonce, ciphertext) {
        Some(p) => Ok(p),
        None => Err(CryptoError::MacMismatch),
    }
}

/// `ciphertext` is the stream encryption of `plaintext` under `key` and `header`.
pub open spec fn stream_sealed(key: Seq<u8>, header: Seq<u8>, plaintext: Seq<u8>, ciphertext: Seq<u8>) -> bool {
    &&& ciphertext == spec_xchacha20poly1305_encrypt(key, header, plaintext)
    &&& ciphertext.len() == plaintext.len() + 16
    &&& spec_xchacha20poly1305_decrypt(key, header, ciphertext) == Some(plaintext)
}

/// What stream decryption of `ciphertext` under `key` and `header` gives.
pub open spec fn stream_opened(key: Seq<u8>, header: Seq<u8>, ciphertext: Seq<u8>) -> Result<Seq<u8>, CryptoError> {
    match spec_xchacha20poly1305_decrypt(key, header, ciphertext) {
        Some(p) => Ok(p),
        None => Err(CryptoError::MacMismatch),
    }
}

/// The largest plaintext the stream construction accepts: fewer than
/// 2^32 - 1 blocks of 64 bytes.
pub open spec fn stream_plaintext_ok(len: nat) -> bool {
    len / 64 < 4294967295
}

/// Encrypts `plaintext` under `key` with a fresh random nonce, which is
/// returned beside the ciphertext.
pub fn secretbox_encrypt(plaintext: &[u8], key: &Key256) -> (r: (Nonce24, Vec<u8>))
    ensures
        secretbox_sealed(key@, r.0@, plaintext@, r.1@),
{
    let nonce_bytes: [u8; 24] = random_bytes();
    let ciphertext = xsalsa20poly1305_encrypt(key.as_bytes(), &nonce_bytes, plaintext);
    (Nonce24::new(nonce_bytes), ciphertext)
}

/// Authenticates and decrypts `ciphertext`; a failed authentication is
/// `MacMismatch`.
pub fn secretbox_decrypt(nonce: &Nonce24, ciphertext: &[u8], key: &Key256) -> (r: Result<Vec<u8>, CryptoError>)
    ensures
        result_bytes(r) == secretbox_opened(key@, nonce@, ciphertext@),
{
    match xsalsa20poly1305_decrypt(key.as_bytes(), nonce.as_bytes(), ciphertext) {
        Some(p) => Ok(p),
        None => Err(CryptoError::MacMismatch),
    }
}

/// Encrypts `plaintext` under `key` with a fresh random header, which is
/// returned beside the ciphertext.
pub fn stream_encrypt(plaintext: &[u8], key: &Key256) -> (r: (Header24, Vec<u8>))
    requires
        stream_plaintext_ok(plaintext@.len()),
    ensures
        stream_sealed(key@, r.0@, plaintext@, r.1@),
{
    let header_bytes: [u8; 24] = random_bytes();
    let ciphertext = xchacha20poly1305_encrypt(key.as_bytes(), &header_bytes, plaintext);
    (Header24::new(header_bytes), ciphertext)
}

/// Authenticates and decrypts `ciphertext`; a failed authentication is
/// `MacMismatch`.
pub fn stream_decrypt(header: &Header24, ciphertext: &[u8], key: &Key256) -> (r: Result<Vec<u8>, CryptoError>)
    ensures
        result_bytes(r) == stream_opened(key@, header@, ciphertext@),
{
    match xchacha20poly1305_decrypt(key.as_bytes(), header.as_bytes(), ciphertext) {
        Some(p) => Ok(p),
        None => Err(CryptoError::MacMismatch),
    }
}

/// Secretbox decryption gives back what secretbox encryption produced under
/// the same key and nonce.
pub proof fn lemma_secretbox_roundtrip(key: Seq<u8>, nonce: Seq<u8>, plaintext: Seq<u8>, ciphertext: Seq<u8>)
    requires
        secretbox_sealed(key, nonce, plaintext, ciphertext),
    ensures
        secretbox_opened(key, nonce, ciphertext) == Ok::<Seq<u8>, CryptoError>(plaintext),
{
}

/// Stream decryption gives back what stream encryption produced under the
/// same key and header.
pub proof fn lemma_stream_roundtrip(key: Seq<u8>, header: Seq<u8>, plaintext: Seq<u8>, ciphertext: Seq<u8>)
    requires
        stream_sealed(key, header, plaintext, ciphertext),
    ensures
        stream_opened(key, header, ciphertext) == Ok::<Seq<u8>, CryptoError>(plaintext),
{
}

} // verus!
