//! Byte utilities: constant-time comparison, wiping, and the base64 and
//! hexadecimal text encodings.
use vstd::prelude::*;
use crate::crypto::error::CryptoError;
use crate::crypto::primitives::{
    base64_decodes_to, base64_error, base64_standard_decode, base64_standard_encode, ct_eq_bytes, hex_any_decode, hex_digit,
    hex_lower_encode, hex_value, spec_base64_decode, spec_base64_encode, spec_hex_decode,
    spec_hex_encode,
};

verus! {

/// Whether `a` and `b` hold the same bytes, compared in time independent of
/// their contents when their lengths agree.
pub fn constant_time_eq(a: &[u8], b: &[u8]) -> (r: bool)
    ensures
        r == (a@ == b@),
{
    if a.len() != b.len() {
        return false;
    }
    ct_eq_bytes(a, b)
}

/// Overwrites every byte with zero.
pub fn zeroize_bytes(bytes: &mut [u8])
    ensures
        final(bytes)@ == Seq::new(old(bytes)@.len(), |i: int| 0u8),
{
    let n = bytes.len();
    let mut i: usize = 0;
    while i < n
        invariant
            n == bytes@.len(),
            n == old(bytes)@.len(),
            i <= n,
            forall|j: int| 0 <= j < i ==> bytes@[j] == 0u8,
        decreases n - i,
    {
        bytes[i] = 0;
        i = i + 1;
    }
    assert(bytes@ =~= Seq::new(old(bytes)@.len(), |i: int| 0u8));
}

/// The standard base64 text of `data`.
pub fn base64_encode(data: &[u8]) -> (s: String)
    ensures
        s@ == spec_base64_encode(data@),
        base64_decodes_to(s@, data@),
{
    base64_standard_encode(data)
}

/// The bytes of a standard base64 text; an invalid text is `Base64Error`
/// with the decoder's message.
pub fn base64_decode(s: &str) -> (r: Result<Vec<u8>, CryptoError>)
    ensures
        r is Ok <==> spec_base64_decode(s@) is Ok,
        r matches Ok(v) ==> Ok::<Seq<u8>, Seq<char>>(v@) == spec_base64_decode(s@),
        r matches Err(e) ==> (e matches CryptoError::Base64Error(m) && m@ == base64_error(s@)),
{
    match base64_standard_decode(s) {
        Ok(v) => Ok(v),
        Err(message) => Err(CryptoError::Base64Error(message)),
    }
}

/// The lower-case hexadecimal text of `data`.
pub fn hex_encode(data: &[u8]) -> (s: String)
    ensures
        s@ == spec_hex_encode(data@),
{
    hex_lower_encode(data)
}

/// The bytes of a hexadecimal text; an odd length or a non-digit is
/// `HexError`.
pub fn hex_decode(s: &str) -> (r: Result<Vec<u8>, CryptoError>)
    ensures
        r is Ok <==> spec_hex_decode(s@) is Some,
        r matches Ok(v) ==> Some(v@) == spec_hex_decode(s@),
        r matches Err(e) ==> e is HexError,
{
    match hex_any_decode(s) {
        Ok(v) => Ok(v),
        Err(message) => Err(CryptoError::HexError(message)),
    }
}

proof fn lemma_hex_digit_value(n: u8)
    requires
        n < 16,
    ensures
        hex_value(hex_digit(n)) == Some(n),
{
}

/// Decoding the hexadecimal text of any bytes gives those bytes back.
pub proof fn lemma_hex_roundtrip(data: Seq<u8>)
    ensures
        spec_hex_decode(spec_hex_encode(data)) == Some(data),
{
    let text = spec_hex_encode(data);
    assert forall|i: int| 0 <= i < text.len() implies (#[trigger] hex_value(text[i])) is Some by {
        lemma_hex_digit_value(data[i / 2] / 16);
        lemma_hex_digit_value(data[i / 2] % 16);
    }
    let decoded = spec_hex_decode(text).unwrap();
    assert forall|i: int| 0 <= i < data.len() implies decoded[i] == data[i] by {
        assert(text[2 * i] == hex_digit(data[i] / 16));
        assert(text[2 * i + 1] == hex_digit(data[i] % 16));
        lemma_hex_digit_value(data[i] / 16);
        lemma_hex_digit_value(data[i] % 16);
    }
    assert(decoded =~= data);
}

} // verus!
