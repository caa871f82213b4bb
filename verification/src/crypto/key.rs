//! Generating keys and wrapping one key under another.
use vstd::prelude::*;
use crate::crypto::aead::{secretbox_decrypt, secretbox_encrypt, secretbox_opened, secretbox_sealed};
use crate::crypto::error::CryptoError;
use crate::crypto::primitives::random_bytes;
use crate::crypto::types::{EncryptedKey, Key256};
use crate::bytes::array32_at;

verus! {

/// A fresh random key.
pub fn generate_key() -> (k: Key256)
    ensures
        k@.len() == 32,
{
    let bytes: [u8; 32] = random_bytes();
    Key256::new(bytes)
}

/// `encrypted` wraps the key `plaintext_key` under `wrapping_key`.
pub open spec fn key_wrapped(plaintext_key: Seq<u8>, wrapping_key: Seq<u8>, encrypted: EncryptedKey) -> bool {
    secretbox_sealed(wrapping_key, encrypted.nonce@, plaintext_key, encrypted.ciphertext@)
}

/// What unwrapping `ciphertext` under `wrapping_key` and `nonce` gives: the
/// decryption's error, or `InvalidKey` when the plaintext is not 32 bytes.
pub open spec fn key_unwrapped(wrapping_key: Seq<u8>, nonce: Seq<u8>, ciphertext: Seq<u8>) -> Result<Seq<u8>, CryptoError> {
    match secretbox_opened(wrapping_key, nonce, ciphertext) {
        Ok(p) => if p.len() == 32 {
            Ok(p)
        } else {
            Err(CryptoError::InvalidKey)
        },
        Err(e) => Err(e),
    }
}

/// The view of a key result.
pub open spec fn result_key(r: Result<Key256, CryptoError>) -> Result<Seq<u8>, CryptoError> {
    match r {
        Ok(k) => Ok(k@),
        Err(e) => Err(e),
    }
}

/// Encrypts `plaintext_key` under `wrapping_key` with the secretbox construction.
pub fn encrypt_key(plaintext_key: &Key256, wrapping_key: &Key256) -> (e: EncryptedKey)
    ensures
        key_wrapped(plaintext_key@, wrapping_key@, e),
        e.ciphertext@.len() == 48,
{
    let (nonce, ciphertext) = secretbox_encrypt(plaintext_key.as_bytes(), wrapping_key);
    proof {
        plaintext_key.lemma_len();
    }
    EncryptedKey { nonce, ciphertext }
}

/// Decrypts a wrapped key.
pub fn decrypt_key(encrypted: &EncryptedKey, wrapping_key: &Key256) -> (r: Result<Key256, CryptoError>)
    ensures
        result_key(r) == key_unwrapped(wrapping_key@, encrypted.nonce@, encrypted.ciphertext@),
{
    let plaintext = secretbox_decrypt(&encrypted.nonce, encrypted.ciphertext.as_slice(), wrapping_key)?;
    if plaintext.len() != 32 {
        return Err(CryptoError::InvalidKey);
    }
    let bytes = array32_at(plaintext.as_slice(), 0);
    proof {
        assert(plaintext@.subrange(0, 32) =~= plaintext@);
    }
    Ok(Key256::new(bytes))
}

/// Unwrapping a wrapped key under the same wrapping key gives the key back.
pub proof fn lemma_key_wrap_roundtrip(plaintext_key: Seq<u8>, wrapping_key: Seq<u8>, encrypted: EncryptedKey)
    requires
        plaintext_key.len() == 32,
        key_wrapped(plaintext_key, wrapping_key, encrypted),
    ensures
        key_unwrapped(wrapping_key, encrypted.nonce@, encrypted.ciphertext@) == Ok::<Seq<u8>, CryptoError>(plaintext_key),
{
}

} // verus!
