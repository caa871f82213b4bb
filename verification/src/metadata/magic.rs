//! Magic metadata: fields that the server may index, each encrypted on its
//! own as "base64(header):base64(ciphertext)".
use vstd::prelude::*;
use crate::crypto::aead::{lemma_stream_roundtrip, stream_encrypt, stream_opened, stream_plaintext_ok, stream_sealed};
use crate::crypto::error::CryptoError;
use crate::crypto::primitives::{base64_standard_encode, spec_base64_encode};
use crate::crypto::types::Key256;
use vstd::string::StringSliceAdditionalSpecFns;
use crate::text::{decimal, decimal_string};

verus! {

/// The encrypted fields of a file's magic metadata.
#[derive(Debug, Clone)]
pub struct MagicMetadata {
    pub encrypted_taken_at: Option<String>,
    pub encrypted_file_size: Option<String>,
    pub encrypted_mime_type: Option<String>,
    pub encrypted_collection_id: Option<String>,
    pub content_hash: String,
}

/// `field` is `value` encrypted under `file_key`: the base64 of a header, a
/// colon, and the base64 of the stream ciphertext under that header.
pub open spec fn encrypted_field(value: Seq<u8>, file_key: Seq<u8>, field: Seq<char>) -> bool {
    exists|header: Seq<u8>, ciphertext: Seq<u8>|
        {
            &&& header.len() == 24
            &&& stream_sealed(file_key, header, value, ciphertext)
            &&& field == spec_base64_encode(header) + seq![':'] + spec_base64_encode(ciphertext)
        }
}

/// An encrypted field is the base64 of a header and of a ciphertext under
/// that header which stream decryption with the file key opens to the value.
pub proof fn lemma_encrypted_field_opens(value: Seq<u8>, file_key: Seq<u8>, field: Seq<char>)
    requires
        encrypted_field(value, file_key, field),
    ensures
        exists|header: Seq<u8>, ciphertext: Seq<u8>|
            {
                &&& header.len() == 24
                &&& field == spec_base64_encode(header) + seq![':'] + spec_base64_encode(ciphertext)
                &&& stream_opened(file_key, header, ciphertext) == Ok::<Seq<u8>, CryptoError>(value)
            },
{
    let (header, ciphertext) = choose|header: Seq<u8>, ciphertext: Seq<u8>|
        {
            &&& header.len() == 24
            &&& stream_sealed(file_key, header, value, ciphertext)
            &&& field == spec_base64_encode(header) + seq![':'] + spec_base64_encode(ciphertext)
        };
    lemma_stream_roundtrip(file_key, header, value, ciphertext);
}

/// An optional field holds `value` encrypted under `file_key` exactly when
/// there is a value.
pub open spec fn optional_field(value: Option<Seq<u8>>, file_key: Seq<u8>, field: Option<String>) -> bool {
    match (value, field) {
        (Some(v), Some(f)) => encrypted_field(v, file_key, f@),
        (None, None) => true,
        _ => false,
    }
}

/// An optional field is there exactly when its value is, and then it is
/// "base64(header):base64(ciphertext)" that the stream cipher opens under
/// `file_key` to that value.
pub proof fn lemma_optional_field_opens(value: Option<Seq<u8>>, file_key: Seq<u8>, field: Option<String>)
    requires
        optional_field(value, file_key, field),
    ensures
        field is Some <==> value is Some,
        value matches Some(v) ==> exists|header: Seq<u8>, ciphertext: Seq<u8>|
            {
                &&& header.len() == 24
                &&& field.unwrap()@ == spec_base64_encode(header) + seq![':'] + spec_base64_encode(ciphertext)
                &&& stream_opened(file_key, header, ciphertext) == Ok::<Seq<u8>, CryptoError>(v)
            },
{
    if let Some(v) = value {
        lemma_encrypted_field_opens(v, file_key, field.unwrap()@);
    }
}

/// The ASCII bytes of a text of ASCII characters.
pub open spec fn ascii_bytes(text: Seq<char>) -> Seq<u8> {
    text.map_values(|c: char| c as u8)
}

/// Encrypts one field: the UTF-8 bytes of `value` under `file_key`, written
/// as "base64(header):base64(ciphertext)".
pub fn encrypt_field(value: &str, file_key: &Key256) -> (field: String)
    requires
        stream_plaintext_ok(value.spec_bytes().len()),
    ensures
        encrypted_field(value.spec_bytes(), file_key@, field@),
{
    let bytes = value.as_bytes();
    let (header, ciphertext) = stream_encrypt(bytes, file_key);
    let header_b64 = base64_standard_encode(header.as_bytes());
    let ct_b64 = base64_standard_encode(ciphertext.as_slice());
    let mut field = header_b64;
    field.append(":");
    field.append(ct_b64.as_str());
    proof {
        reveal_strlit(":");
        header.lemma_len();
        assert(field@ =~= spec_base64_encode(header@) + seq![':'] + spec_base64_encode(ciphertext@));
    }
    field
}

/// Encrypts a field of ASCII text, whose bytes are its characters.
fn encrypt_ascii_field(value: &str, file_key: &Key256) -> (field: String)
    requires
        vstd::utf8::is_ascii_chars(value@),
        value@.len() <= 64,
    ensures
        encrypted_field(ascii_bytes(value@), file_key@, field@),
{
    proof {
        vstd::string::is_ascii_spec_bytes(value);
        assert(value.spec_bytes() =~= ascii_bytes(value@));
    }
    encrypt_field(value, file_key)
}

/// The placeholder recorded for the file size.
pub open spec fn size_placeholder() -> Seq<char> {
    "size_placeholder"@
}

/// The placeholder recorded for the MIME type.
pub open spec fn mime_placeholder() -> Seq<char> {
    "mime_placeholder"@
}

/// The placeholder recorded for the collection.
pub open spec fn collection_placeholder() -> Seq<char> {
    "col_placeholder"@
}

/// Derives a file's magic metadata from its capture time and title: the
/// capture time, as decimal text, is encrypted when there is one; when the
/// file has a title, placeholders for its size, MIME type and collection are
/// encrypted; the content hash is a placeholder.
pub fn derive_magic_metadata(taken_at: Option<i64>, title: &Option<String>, file_key: &Key256) -> (m: MagicMetadata)
    ensures
        optional_field(
            match taken_at {
                Some(ts) => Some(ascii_bytes(decimal(ts as int))),
                None => None,
            },
            file_key@,
            m.encrypted_taken_at,
        ),
        optional_field(if title is Some { Some(ascii_bytes(size_placeholder())) } else { None }, file_key@, m.encrypted_file_size),
        optional_field(if title is Some { Some(ascii_bytes(mime_placeholder())) } else { None }, file_key@, m.encrypted_mime_type),
        optional_field(if title is Some { Some(ascii_bytes(collection_placeholder())) } else { None }, file_key@, m.encrypted_collection_id),
        m.content_hash@ == "hash_placeholder"@,
{
    proof {
        reveal_strlit("size_placeholder");
        reveal_strlit("mime_placeholder");
        reveal_strlit("col_placeholder");
    }
    let encrypted_taken_at = match taken_at {
        Some(ts) => {
            let text = decimal_string(ts as i128);
            proof {
                crate::text::lemma_decimal_ascii(ts as int);
            }
            Some(encrypt_ascii_field(text.as_str(), file_key))
        },
        None => None,
    };
    let (encrypted_file_size, encrypted_mime_type, encrypted_collection_id) = match title {
        Some(_) => {
            (
                Some(encrypt_ascii_field("size_placeholder", file_key)),
                Some(encrypt_ascii_field("mime_placeholder", file_key)),
                Some(encrypt_ascii_field("col_placeholder", file_key)),
            )
        },
        None => (None, None, None),
    };
    MagicMetadata {
        encrypted_taken_at,
        encrypted_file_size,
        encrypted_mime_type,
        encrypted_collection_id,
        content_hash: String::from_str("hash_placeholder"),
    }
}

} // verus!
