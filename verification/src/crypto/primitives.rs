//! The cryptographic primitives this library builds on, each a call into the
//! crate that implements it. Their contracts are trusted: they restate what the
//! implementing crate's source shows.
use vstd::prelude::*;
use rand_core::RngCore;
use subtle::ConstantTimeEq;
use xsalsa20poly1305::aead::{Aead, KeyInit};
use base64::Engine;

verus! {

/// The XSalsa20-Poly1305 ciphertext (tag first) of `plaintext`.
pub uninterp spec fn spec_xsalsa20poly1305_encrypt(key: Seq<u8>, nonce: Seq<u8>, plaintext: Seq<u8>) -> Seq<u8>;

/// The plaintext that XSalsa20-Poly1305 authenticates and recovers from
/// `ciphertext`, or `None` when authentication fails.
pub uninterp spec fn spec_xsalsa20poly1305_decrypt(key: Seq<u8>, nonce: Seq<u8>, ciphertext: Seq<u8>) -> Option<Seq<u8>>;

/// The XChaCha20-Poly1305 ciphertext (tag last) of `plaintext`.
pub uninterp spec fn spec_xchacha20poly1305_encrypt(key: Seq<u8>, nonce: Seq<u8>, plaintext: Seq<u8>) -> Seq<u8>;

/// The plaintext that XChaCha20-Poly1305 authenticates and recovers from
/// `ciphertext`, or `None` when authentication fails.
pub uninterp spec fn spec_xchacha20poly1305_decrypt(key: Seq<u8>, nonce: Seq<u8>, ciphertext: Seq<u8>) -> Option<Seq<u8>>;

/// BLAKE2b with output length `out_len`, key `key` and personalization
/// `personal`, applied to `input`.
pub uninterp spec fn spec_blake2b(out_len: usize, key: Seq<u8>, personal: Seq<u8>, input: Seq<u8>) -> Seq<u8>;

/// The X25519 public key of a secret key.
pub uninterp spec fn spec_x25519_public(secret: Seq<u8>) -> Seq<u8>;

/// The X25519 shared secret of a secret key and a public key.
pub uninterp spec fn spec_x25519(secret: Seq<u8>, public: Seq<u8>) -> Seq<u8>;

/// Argon2id (version 0x13) output of 32 bytes.
pub uninterp spec fn spec_argon2id(password: Seq<u8>, salt: Seq<u8>, m_cost: u32, t_cost: u32, p_cost: u32) -> Seq<u8>;

/// The standard (padded) base64 text of `data`.
pub uninterp spec fn spec_base64_encode(data: Seq<u8>) -> Seq<char>;

/// The bytes that standard base64 decodes from `text`, or the message of the
/// error it reports when `text` is not valid standard base64.
pub uninterp spec fn spec_base64_decode(text: Seq<char>) -> Result<Seq<u8>, Seq<char>>;

/// Standard base64 decodes `text` to `data`.
pub open spec fn base64_decodes_to(text: Seq<char>, data: Seq<u8>) -> bool {
    spec_base64_decode(text) == Ok::<Seq<u8>, Seq<char>>(data)
}

/// The message of the error that decoding `text` as standard base64 reports;
/// empty for a valid text.
pub open spec fn base64_error(text: Seq<char>) -> Seq<char> {
    match spec_base64_decode(text) {
        Ok(_) => Seq::empty(),
        Err(m) => m,
    }
}

/// Lower-case hexadecimal digit of a value below 16.
pub open spec fn hex_digit(n: u8) -> char {
    if n < 10 {
        (('0' as u8) + n) as char
    } else {
        (('a' as u8) + (n - 10)) as char
    }
}

/// Lower-case hexadecimal text of `data`: two digits per byte, high nibble first.
pub open spec fn spec_hex_encode(data: Seq<u8>) -> Seq<char> {
    Seq::new(
        2 * data.len(),
        |i: int|
            if i % 2 == 0 {
                hex_digit(data[i / 2] / 16)
            } else {
                hex_digit(data[i / 2] % 16)
            },
    )
}

/// The value of a hexadecimal digit, either case.
pub open spec fn hex_value(c: char) -> Option<u8> {
    if '0' <= c && c <= '9' {
        Some(((c as u32) - ('0' as u32)) as u8)
    } else if 'a' <= c && c <= 'f' {
        Some(((c as u32) - ('a' as u32) + 10) as u8)
    } else if 'A' <= c && c <= 'F' {
        Some(((c as u32) - ('A' as u32) + 10) as u8)
    } else {
        None
    }
}

/// The bytes that `text` spells in hexadecimal, or `None` when its length is
/// odd or it holds a character that is not a hexadecimal digit.
pub open spec fn spec_hex_decode(text: Seq<char>) -> Option<Seq<u8>> {
    if text.len() % 2 == 0 && forall|i: int| 0 <= i < text.len() ==> (#[trigger] hex_value(text[i])) is Some {
        Some(
            Seq::new(
                text.len() / 2,
                |i: int| (hex_value(text[2 * i]).unwrap() * 16 + hex_value(text[2 * i + 1]).unwrap()) as u8,
            ),
        )
    } else {
        None
    }
}

/// The view of an optional byte vector.
pub open spec fn opt_bytes(o: Option<Vec<u8>>) -> Option<Seq<u8>> {
    match o {
        Some(v) => Some(v@),
        None => None,
    }
}

/// Fills an array with bytes from the operating system's random source
/// (`rand_core::OsRng::fill_bytes`). Nothing is claimed of the bytes.
#[verifier::external_body]
pub(crate) fn random_bytes<const N: usize>() -> (r: [u8; N]) {
    let mut bytes = [0u8; N];
    rand_core::OsRng.fill_bytes(&mut bytes);
    bytes
}

/// `XSalsa20Poly1305::encrypt` with no associated data. The source shows it
/// cannot fail then, that the ciphertext is the plaintext's length plus the
/// 16-byte tag, and (as for any AEAD) that decryption under the same key and
/// nonce gives the plaintext back.
#[verifier::external_body]
pub(crate) fn xsalsa20poly1305_encrypt(key: &[u8; 32], nonce: &[u8; 24], plaintext: &[u8]) -> (ct: Vec<u8>)
    ensures
        ct@ == spec_xsalsa20poly1305_encrypt(key@, nonce@, plaintext@),
        ct@.len() == plaintext@.len() + 16,
        spec_xsalsa20poly1305_decrypt(key@, nonce@, ct@) == Some(plaintext@),
{
    let cipher = xsalsa20poly1305::XSalsa20Poly1305::new(key.into());
    cipher.encrypt(nonce.into(), plaintext).unwrap()
}

/// `XSalsa20Poly1305::decrypt` with no associated data; its error becomes
/// `None`. A recovered plaintext is 16 bytes (the tag) shorter than the
/// ciphertext.
#[verifier::external_body]
pub(crate) fn xsalsa20poly1305_decrypt(key: &[u8; 32], nonce: &[u8; 24], ciphertext: &[u8]) -> (pt: Option<Vec<u8>>)
    ensures
        opt_bytes(pt) == spec_xsalsa20poly1305_decrypt(key@, nonce@, ciphertext@),
        pt matches Some(p) ==> p@.len() + 16 == ciphertext@.len(),
{
    let cipher = xsalsa20poly1305::XSalsa20Poly1305::new(key.into());
    match cipher.decrypt(nonce.into(), ciphertext) {
        Ok(p) => Some(p),
        Err(_) => None,
    }
}

/// `XChaCha20Poly1305::encrypt` with no associated data. The source fails only
/// when the plaintext holds 2^32 - 1 or more 64-byte blocks, which `requires`
/// leaves out; the ciphertext is the plaintext's length plus the 16-byte tag,
/// and decryption under the same key and nonce gives the plaintext back.
#[verifier::external_body]
pub(crate) fn xchacha20poly1305_encrypt(key: &[u8; 32], nonce: &[u8; 24], plaintext: &[u8]) -> (ct: Vec<u8>)
    requires
        plaintext@.len() / 64 < 4294967295,
    ensures
        ct@ == spec_xchacha20poly1305_encrypt(key@, nonce@, plaintext@),
        ct@.len() == plaintext@.len() + 16,
        spec_xchacha20poly1305_decrypt(key@, nonce@, ct@) == Some(plaintext@),
{
    let cipher = chacha20poly1305::XChaCha20Poly1305::new(key.into());
    cipher.encrypt(nonce.into(), plaintext).unwrap()
}

/// `XChaCha20Poly1305::decrypt` with no associated data; its error becomes
/// `None`. A recovered plaintext is 16 bytes shorter than the ciphertext.
#[verifier::external_body]
pub(crate) fn xchacha20poly1305_decrypt(key: &[u8; 32], nonce: &[u8; 24], ciphertext: &[u8]) -> (pt: Option<Vec<u8>>)
    ensures
        opt_bytes(pt) == spec_xchacha20poly1305_decrypt(key@, nonce@, ciphertext@),
        pt matches Some(p) ==> p@.len() + 16 == ciphertext@.len(),
{
    let cipher = chacha20poly1305::XChaCha20Poly1305::new(key.into());
    match cipher.decrypt(nonce.into(), ciphertext) {
        Ok(p) => Some(p),
        Err(_) => None,
    }
}

/// `blake2b_simd::Params::hash` after setting the output length, the key and
/// the personalization. The source asserts the three bounds of `requires`;
/// the digest is `out_len` bytes long.
#[verifier::external_body]
pub(crate) fn blake2b(out_len: usize, key: &[u8], personal: &[u8], input: &[u8]) -> (h: Vec<u8>)
    requires
        1 <= out_len <= 64,
        key@.len() <= 64,
        personal@.len() <= 16,
    ensures
        h@ == spec_blake2b(out_len, key@, personal@, input@),
        h@.len() == out_len,
{
    let mut params = blake2b_simd::Params::new();
    params.hash_length(out_len);
    params.key(key);
    params.personal(personal);
    params.hash(input).as_bytes().to_vec()
}

/// `x25519_dalek::PublicKey::from(&StaticSecret::from(secret))`. Diffie-Hellman
/// agreement: any secret key combined with this public key gives the shared
/// secret that this secret key gives with that key's public key.
#[verifier::external_body]
pub(crate) fn x25519_public(secret: &[u8; 32]) -> (public: [u8; 32])
    ensures
        public@ == spec_x25519_public(secret@),
        forall|other: Seq<u8>|
            #![trigger spec_x25519(other, public@)]
            other.len() == 32 ==> spec_x25519(other, public@) == spec_x25519(secret@, spec_x25519_public(other)),
{
    let sk = x25519_dalek::StaticSecret::from(*secret);
    x25519_dalek::PublicKey::from(&sk).to_bytes()
}

/// `x25519_dalek::StaticSecret::diffie_hellman`.
#[verifier::external_body]
pub(crate) fn x25519_diffie_hellman(secret: &[u8; 32], public: &[u8; 32]) -> (shared: [u8; 32])
    ensures
        shared@ == spec_x25519(secret@, public@),
{
    let sk = x25519_dalek::StaticSecret::from(*secret);
    let pk = x25519_dalek::PublicKey::from(*public);
    *sk.diffie_hellman(&pk).as_bytes()
}

/// `subtle::ConstantTimeEq::ct_eq` on byte slices: false when the lengths
/// differ, else whether all bytes agree.
#[verifier::external_body]
pub(crate) fn ct_eq_bytes(a: &[u8], b: &[u8]) -> (r: bool)
    ensures
        r == (a@ == b@),
{
    a.ct_eq(b).into()
}

#[verifier::external_type_specification]
#[verifier::external_body]
pub struct ExArgon2Params(argon2::Params);

/// Validated Argon2 cost parameters, with the values they were made from.
/// Only `argon2_params` makes them, so the values are those `inner` holds.
pub struct Argon2Params {
    inner: argon2::Params,
    m_cost: u32,
    t_cost: u32,
    p_cost: u32,
}

impl Argon2Params {
    /// The memory cost, in KiB blocks.
    pub closed spec fn spec_m_cost(&self) -> u32 {
        self.m_cost
    }

    /// The number of passes.
    pub closed spec fn spec_t_cost(&self) -> u32 {
        self.t_cost
    }

    /// The number of lanes.
    pub closed spec fn spec_p_cost(&self) -> u32 {
        self.p_cost
    }
}

/// Why a password hash failed.
#[derive(Clone, Copy, Debug, PartialEq, Eq, Structural)]
pub enum Argon2Failure {
    MemoryTooMuch,
    Other,
}

/// `argon2::Params::new(m_cost, t_cost, p_cost, None)`: the source accepts
/// exactly the parameters of the condition below. It computes `p_cost * 8`
/// in `u32`, which overflows for larger lane counts than Argon2 allows;
/// `requires` keeps `p_cost` within that limit.
#[verifier::external_body]
pub(crate) fn argon2_params(m_cost: u32, t_cost: u32, p_cost: u32) -> (r: Option<Argon2Params>)
    requires
        p_cost <= 0xFFFFFF,
    ensures
        r is Some <==> (m_cost >= 8 && m_cost >= 8 * p_cost && t_cost >= 1 && 1 <= p_cost),
        r matches Some(p) ==> p.spec_m_cost() == m_cost && p.spec_t_cost() == t_cost && p.spec_p_cost() == p_cost,
{
    match argon2::Params::new(m_cost, t_cost, p_cost, None) {
        Ok(inner) => Some(Argon2Params { inner, m_cost, t_cost, p_cost }),
        Err(_) => None,
    }
}

/// `Argon2::new(Argon2id, V0x13, params).hash_password_into(password, salt, out)`
/// with a 32-byte output. With a 16-byte salt and a 32-byte output the source
/// fails only for a password longer than 0xFFFFFFFF bytes, and never with
/// `MemoryTooMuch` (it allocates the blocks itself).
#[verifier::external_body]
pub(crate) fn argon2id_hash(params: &Argon2Params, password: &[u8], salt: &[u8; 16]) -> (r: Result<[u8; 32], Argon2Failure>)
    ensures
        r is Ok <==> password@.len() <= 0xFFFFFFFF,
        r matches Ok(out) ==> out@ == spec_argon2id(password@, salt@, params.spec_m_cost(), params.spec_t_cost(), params.spec_p_cost()),
        r matches Err(f) ==> f == Argon2Failure::Other,
{
    let argon = argon2::Argon2::new(argon2::Algorithm::Argon2id, argon2::Version::V0x13, params.inner.clone());
    let mut out = [0u8; 32];
    match argon.hash_password_into(password, salt, &mut out) {
        Ok(()) => Ok(out),
        Err(argon2::Error::MemoryTooMuch) => Err(Argon2Failure::MemoryTooMuch),
        Err(_) => Err(Argon2Failure::Other),
    }
}

/// `base64::engine::general_purpose::STANDARD.encode`. Decoding its output
/// gives the data back.
#[verifier::external_body]
pub(crate) fn base64_standard_encode(data: &[u8]) -> (s: String)
    ensures
        s@ == spec_base64_encode(data@),
        base64_decodes_to(s@, data@),
{
    base64::engine::general_purpose::STANDARD.encode(data)
}

/// `base64::engine::general_purpose::STANDARD.decode`; the error becomes its
/// message.
#[verifier::external_body]
pub(crate) fn base64_standard_decode(s: &str) -> (r: Result<Vec<u8>, String>)
    ensures
        match r {
            Ok(v) => spec_base64_decode(s@) == Ok::<Seq<u8>, Seq<char>>(v@),
            Err(m) => spec_base64_decode(s@) == Err::<Seq<u8>, Seq<char>>(m@),
        },
{
    match base64::engine::general_purpose::STANDARD.decode(s) {
        Ok(v) => Ok(v),
        Err(e) => Err(e.to_string()),
    }
}

/// `hex::encode`: two lower-case digits per byte.
#[verifier::external_body]
pub(crate) fn hex_lower_encode(data: &[u8]) -> (s: String)
    ensures
        s@ == spec_hex_encode(data@),
{
    hex::encode(data)
}

/// `hex::decode`; the error becomes its message. The source accepts exactly an
/// even-length text of hexadecimal digits of either case. Nothing is claimed
/// of the message's text.
#[verifier::external_body]
pub(crate) fn hex_any_decode(s: &str) -> (r: Result<Vec<u8>, String>)
    ensures
        r is Ok <==> spec_hex_decode(s@) is Some,
        r matches Ok(v) ==> Some(v@) == spec_hex_decode(s@),
{
    match hex::decode(s) {
        Ok(v) => Ok(v),
        Err(e) => Err(e.to_string()),
    }
}

} // verus!
