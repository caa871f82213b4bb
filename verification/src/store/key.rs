//! The key of the local database, as the keychain stores it: hexadecimal
//! text.
use vstd::prelude::*;
use crate::crypto::primitives::{hex_any_decode, hex_lower_encode, spec_hex_decode, spec_hex_encode};
use crate::crypto::util::lemma_hex_roundtrip;
use crate::store::error::LocalDbError;

verus! {

/// The text under which a database key is stored in the keychain.
pub fn db_key_text(key: &[u8; 32]) -> (text: String)
    ensures
        text@ == spec_hex_encode(key@),
{
    hex_lower_encode(key)
}

/// What reading a stored text as a database key gives: the key, the error
/// `KeychainUnavailable` for a text that is not hexadecimal, or `None` for
/// one that spells other than 32 bytes.
pub open spec fn db_key_read(text: Seq<char>) -> Option<Result<Seq<u8>, LocalDbError>> {
    match spec_hex_decode(text) {
        None => Some(Err(LocalDbError::KeychainUnavailable)),
        Some(bytes) => if bytes.len() == 32 {
            Some(Ok(bytes))
        } else {
            None
        },
    }
}

/// The view of a key read from the keychain.
pub open spec fn key_read_view(r: Option<Result<[u8; 32], LocalDbError>>) -> Option<Result<Seq<u8>, LocalDbError>> {
    match r {
        Some(Ok(k)) => Some(Ok(k@)),
        Some(Err(e)) => Some(Err(e)),
        None => None,
    }
}

/// The database key that a stored text spells. A text that is not
/// hexadecimal means the keychain cannot be used (`KeychainUnavailable`); one
/// that spells other than 32 bytes gives `None`: the database cannot be
/// opened with it.
pub fn db_key_from_text(text: &str) -> (r: Option<Result<[u8; 32], LocalDbError>>)
    ensures
        key_read_view(r) == db_key_read(text@),
{
    let bytes = match hex_any_decode(text) {
        Ok(b) => b,
        Err(_) => return Some(Err(LocalDbError::KeychainUnavailable)),
    };
    if bytes.len() != 32 {
        return None;
    }
    let mut key = [0u8; 32];
    let mut i: usize = 0;
    while i < 32
        invariant
            bytes@.len() == 32,
            i <= 32,
            forall|j: int| 0 <= j < i ==> key@[j] == bytes@[j],
        decreases 32 - i,
    {
        key[i] = bytes[i];
        i = i + 1;
    }
    assert(key@ =~= bytes@);
    Some(Ok(key))
}

/// A key stored as its text reads back as the same key.
pub proof fn lemma_db_key_roundtrip(key: Seq<u8>)
    requires
        key.len() == 32,
    ensures
        db_key_read(spec_hex_encode(key)) == Some(Ok::<Seq<u8>, LocalDbError>(key)),
{
    lemma_hex_roundtrip(key);
}

} // verus!
