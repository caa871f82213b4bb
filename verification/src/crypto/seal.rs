//! Sealed boxes: anonymous public-key encryption. A sealed box is an
//! ephemeral X25519 public key (32 bytes), a nonce (24 bytes) and the
//! secretbox ciphertext under the BLAKE2b-256 hash of the shared secret.
use vstd::prelude::*;
use crate::crypto::aead::result_bytes;
use crate::crypto::error::CryptoError;
use crate::crypto::primitives::{
    blake2b, random_bytes, spec_blake2b, spec_x25519, spec_x25519_public,
    spec_xsalsa20poly1305_decrypt, spec_xsalsa20poly1305_encrypt, x25519_diffie_hellman,
    x25519_public, xsalsa20poly1305_decrypt, xsalsa20poly1305_encrypt,
};
use crate::crypto::types::{PublicKey, SecretKey};
use crate::bytes::{append_bytes, array24_at, array32_at, tail_from};

verus! {

/// The symmetric key of a sealed box: BLAKE2b-256 of the X25519 shared secret.
pub open spec fn sealed_box_key(secret: Seq<u8>, public: Seq<u8>) -> Seq<u8> {
    spec_blake2b(32, seq![], seq![], spec_x25519(secret, public))
}

/// `secret` and the public key derived from it agree with every other key
/// pair on the shared secret.
pub open spec fn agrees_with_all(secret: Seq<u8>) -> bool {
    forall|other: Seq<u8>|
        #![trigger spec_x25519(other, spec_x25519_public(secret))]
        other.len() == 32 ==> spec_x25519(other, spec_x25519_public(secret)) == spec_x25519(
            secret,
            spec_x25519_public(other),
        )
}

/// `sealed` is a sealed box of `plaintext` for `recipient`: ephemeral public
/// key, nonce and ciphertext, made with some ephemeral secret key.
pub open spec fn sealed_for(recipient: Seq<u8>, plaintext: Seq<u8>, sealed: Seq<u8>) -> bool {
    &&& sealed.len() == 56 + plaintext.len() + 16
    &&& exists|ephemeral: Seq<u8>|
        {
            &&& ephemeral.len() == 32
            &&& agrees_with_all(ephemeral)
            &&& sealed.subrange(0, 32) == spec_x25519_public(ephemeral)
            &&& sealed.subrange(56, sealed.len() as int) == spec_xsalsa20poly1305_encrypt(
                sealed_box_key(ephemeral, recipient),
                sealed.subrange(32, 56),
                plaintext,
            )
            &&& spec_xsalsa20poly1305_decrypt(
                sealed_box_key(ephemeral, recipient),
                sealed.subrange(32, 56),
                sealed.subrange(56, sealed.len() as int),
            ) == Some(plaintext)
        }
}

/// What opening `sealed` with `secret` gives.
pub open spec fn sealed_box_opened(secret: Seq<u8>, sealed: Seq<u8>) -> Result<Seq<u8>, CryptoError> {
    if sealed.len() < 56 {
        Err(CryptoError::InvalidKey)
    } else {
        match spec_xsalsa20poly1305_decrypt(
            sealed_box_key(secret, sealed.subrange(0, 32)),
            sealed.subrange(32, 56),
            sealed.subrange(56, sealed.len() as int),
        ) {
            Some(p) => Ok(p),
            None => Err(CryptoError::MacMismatch),
        }
    }
}

/// The key of a sealed box as an array.
fn box_key(secret: &[u8; 32], public: &[u8; 32]) -> (k: [u8; 32])
    ensures
        k@ == sealed_box_key(secret@, public@),
{
    let shared = x25519_diffie_hellman(secret, public);
    let empty: [u8; 0] = [];
    proof {
        assert(empty@ =~= Seq::<u8>::empty());
    }
    let hash = blake2b(32, &empty, &empty, &shared);
    let k = array32_at(hash.as_slice(), 0);
    proof {
        assert(hash@.subrange(0, 32) =~= hash@);
    }
    k
}

/// Seals `plaintext` for the holder of the secret key of `recipient_pk`,
/// with a fresh ephemeral key pair and a fresh nonce.
pub fn seal(plaintext: &[u8], recipient_pk: &PublicKey) -> (sealed: Vec<u8>)
    ensures
        sealed_for(recipient_pk@, plaintext@, sealed@),
{
    let ephemeral_sk: [u8; 32] = random_bytes();
    let ephemeral_pk = x25519_public(&ephemeral_sk);
    let recipient = recipient_pk.to_bytes();
    let key = box_key(&ephemeral_sk, &recipient);
    let nonce: [u8; 24] = random_bytes();
    let ciphertext = xsalsa20poly1305_encrypt(&key, &nonce, plaintext);

    let mut output: Vec<u8> = Vec::new();
    append_bytes(&mut output, &ephemeral_pk);
    append_bytes(&mut output, &nonce);
    append_bytes(&mut output, ciphertext.as_slice());
    proof {
        let s = output@;
        assert(s.subrange(0, 32) =~= ephemeral_pk@);
        assert(s.subrange(32, 56) =~= nonce@);
        assert(s.subrange(56, s.len() as int) =~= ciphertext@);
        assert(agrees_with_all(ephemeral_sk@));
    }
    output
}

/// Opens a sealed box with the recipient's secret key. A box shorter than
/// the ephemeral key and nonce is `InvalidKey`; a failed authentication is
/// `MacMismatch`.
pub fn open(ciphertext: &[u8], recipient_sk: &SecretKey) -> (r: Result<Vec<u8>, CryptoError>)
    ensures
        result_bytes(r) == sealed_box_opened(recipient_sk@, ciphertext@),
{
    if ciphertext.len() < 56 {
        return Err(CryptoError::InvalidKey);
    }
    let ephemeral_pk = array32_at(ciphertext, 0);
    let secret = recipient_sk.to_bytes();
    let key = box_key(&secret, &ephemeral_pk);
    let nonce = array24_at(ciphertext, 32);
    let ct = tail_from(ciphertext, 56);
    match xsalsa20poly1305_decrypt(&key, &nonce, ct.as_slice()) {
        Some(p) => Ok(p),
        None => Err(CryptoError::MacMismatch),
    }
}

/// The public key of a secret key.
pub fn public_key_of(secret: &SecretKey) -> (pk: PublicKey)
    ensures
        pk@ == spec_x25519_public(secret@),
{
    let bytes = secret.to_bytes();
    PublicKey::from_bytes(x25519_public(&bytes))
}

/// A fresh random X25519 key pair.
pub fn generate_keypair() -> (r: (SecretKey, PublicKey))
    ensures
        r.0@.len() == 32,
        r.1@ == spec_x25519_public(r.0@),
{
    let bytes: [u8; 32] = random_bytes();
    let secret = SecretKey::from_bytes(bytes);
    let public = public_key_of(&secret);
    (secret, public)
}

/// Opening a sealed box with the secret key of the public key it was sealed
/// for gives back the plaintext.
pub proof fn lemma_seal_open_roundtrip(secret: Seq<u8>, plaintext: Seq<u8>, sealed: Seq<u8>)
    requires
        secret.len() == 32,
        sealed_for(spec_x25519_public(secret), plaintext, sealed),
    ensures
        sealed_box_opened(secret, sealed) == Ok::<Seq<u8>, CryptoError>(plaintext),
{
    let ephemeral = choose|ephemeral: Seq<u8>|
        {
            &&& ephemeral.len() == 32
            &&& agrees_with_all(ephemeral)
            &&& sealed.subrange(0, 32) == spec_x25519_public(ephemeral)
            &&& sealed.subrange(56, sealed.len() as int) == spec_xsalsa20poly1305_encrypt(
                sealed_box_key(ephemeral, spec_x25519_public(secret)),
                sealed.subrange(32, 56),
                plaintext,
            )
            &&& spec_xsalsa20poly1305_decrypt(
                sealed_box_key(ephemeral, spec_x25519_public(secret)),
                sealed.subrange(32, 56),
                sealed.subrange(56, sealed.len() as int),
            ) == Some(plaintext)
        };
    assert(spec_x25519(secret, spec_x25519_public(ephemeral)) == spec_x25519(ephemeral, spec_x25519_public(secret)));
    assert(sealed_box_key(secret, sealed.subrange(0, 32)) == sealed_box_key(ephemeral, spec_x25519_public(secret)));
}

/// The standard sealed box of `plaintext` for `recipient` under the
/// ephemeral secret key `ephemeral` and `nonce`: the ephemeral public key,
/// the nonce, and XSalsa20-Poly1305 under the BLAKE2b-256 hash, with no key
/// and no personalization, of the X25519 shared secret.
pub open spec fn standard_sealed_box(ephemeral: Seq<u8>, recipient: Seq<u8>, nonce: Seq<u8>, plaintext: Seq<u8>) -> Seq<u8> {
    let key = spec_blake2b(32, Seq::empty(), Seq::empty(), spec_x25519(ephemeral, recipient));
    spec_x25519_public(ephemeral) + nonce + spec_xsalsa20poly1305_encrypt(key, nonce, plaintext)
}

/// A sealed box built the standard way for the public key of `secret` (as
/// any other sealed-box implementation builds it) opens with `secret` to its
/// plaintext, given that X25519 agrees on the shared secret of the two key
/// pairs and that the cipher opens what it sealed.
pub proof fn lemma_standard_sealed_box_opens(secret: Seq<u8>, ephemeral: Seq<u8>, nonce: Seq<u8>, plaintext: Seq<u8>)
    requires
        spec_x25519_public(ephemeral).len() == 32,
        nonce.len() == 24,
        spec_x25519(secret, spec_x25519_public(ephemeral)) == spec_x25519(ephemeral, spec_x25519_public(secret)),
        ({
            let key = spec_blake2b(32, Seq::empty(), Seq::empty(), spec_x25519(ephemeral, spec_x25519_public(secret)));
            spec_xsalsa20poly1305_decrypt(key, nonce, spec_xsalsa20poly1305_encrypt(key, nonce, plaintext)) == Some(plaintext)
        }),
    ensures
        sealed_box_opened(secret, standard_sealed_box(ephemeral, spec_x25519_public(secret), nonce, plaintext))
            == Ok::<Seq<u8>, CryptoError>(plaintext),
{
    let key = spec_blake2b(32, Seq::empty(), Seq::empty(), spec_x25519(ephemeral, spec_x25519_public(secret)));
    let ct = spec_xsalsa20poly1305_encrypt(key, nonce, plaintext);
    let sealed = standard_sealed_box(ephemeral, spec_x25519_public(secret), nonce, plaintext);
    assert(sealed.subrange(0, 32) =~= spec_x25519_public(ephemeral));
    assert(sealed.subrange(32, 56) =~= nonce);
    assert(sealed.subrange(56, sealed.len() as int) =~= ct);
    assert(Seq::<u8>::empty() =~= seq![]);
}

/// Every box this library seals is a standard sealed box: the plaintext
/// under some ephemeral key and nonce, its key the BLAKE2b-256 hash, with no
/// key and no personalization, of the X25519 shared secret.
pub proof fn lemma_sealed_box_is_standard(recipient: Seq<u8>, plaintext: Seq<u8>, sealed: Seq<u8>)
    requires
        sealed_for(recipient, plaintext, sealed),
    ensures
        exists|ephemeral: Seq<u8>| sealed == #[trigger] standard_sealed_box(ephemeral, recipient, sealed.subrange(32, 56), plaintext),
{
    let ephemeral = choose|ephemeral: Seq<u8>|
        {
            &&& ephemeral.len() == 32
            &&& agrees_with_all(ephemeral)
            &&& sealed.subrange(0, 32) == spec_x25519_public(ephemeral)
            &&& sealed.subrange(56, sealed.len() as int) == spec_xsalsa20poly1305_encrypt(
                sealed_box_key(ephemeral, recipient),
                sealed.subrange(32, 56),
                plaintext,
            )
            &&& spec_xsalsa20poly1305_decrypt(
                sealed_box_key(ephemeral, recipient),
                sealed.subrange(32, 56),
                sealed.subrange(56, sealed.len() as int),
            ) == Some(plaintext)
        };
    assert(Seq::<u8>::empty() =~= seq![]);
    assert(sealed =~= standard_sealed_box(ephemeral, recipient, sealed.subrange(32, 56), plaintext));
}

} // verus!
