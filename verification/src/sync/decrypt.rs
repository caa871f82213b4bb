//! Decrypting the file records that the server sends: the file key is
//! unwrapped with the collection key, then the metadata with the file key.
use vstd::prelude::*;
use crate::bytes::{array24_at, array32_at};
use crate::crypto::aead::{secretbox_decrypt, secretbox_sealed, stream_decrypt, stream_sealed};
use crate::crypto::error::CryptoError;
use crate::crypto::primitives::{
    base64_error, base64_standard_decode, spec_base64_decode, spec_xchacha20poly1305_decrypt,
    spec_xsalsa20poly1305_decrypt,
};
use crate::crypto::types::{Header24, Key256, Nonce24};
use crate::sync::error::SyncError;

verus! {

/// A file record as the server sends it: its keys, nonces and metadata are
/// encrypted and base64-encoded.
#[derive(Debug, Clone)]
pub struct EncryptedFileRecord {
    pub id: i64,
    pub collection_id: String,
    pub cipher: String,
    pub encrypted_key: String,
    pub key_decryption_nonce: String,
    pub file_decryption_header: String,
    pub thumb_decryption_header: Option<String>,
    pub encrypted_metadata: String,
    pub encrypted_thumbnail: Option<String>,
    pub thumbnail_size: Option<i64>,
    pub file_size: i64,
    pub mime_type: String,
    pub content_hash: String,
    pub object_key: String,
    pub updation_time: i64,
    pub created_at: i64,
    pub archived_at: Option<i64>,
}

/// The step at which decrypting a record failed.
#[derive(Debug, Clone, Copy, PartialEq, Eq, Structural)]
pub enum DecryptStep {
    EncryptedKeyText,
    KeyNonceText,
    FileKey,
    MetadataText,
    HeaderText,
    Metadata,
}

/// What decrypting a record gives: the file key and the serialized metadata,
/// or the step that failed. `None` stands for the inputs on which the
/// decryption cannot proceed: a key nonce or header that is not 24 bytes, or
/// a file key that is not 32.
pub open spec fn record_decryption(record: EncryptedFileRecord, collection_key: Seq<u8>) -> Option<Result<(Seq<u8>, Seq<u8>), DecryptStep>> {
    match spec_base64_decode(record.encrypted_key@) {
        Err(_) => Some(Err(DecryptStep::EncryptedKeyText)),
        Ok(encrypted_key) => match spec_base64_decode(record.key_decryption_nonce@) {
            Err(_) => Some(Err(DecryptStep::KeyNonceText)),
            Ok(nonce) => if nonce.len() != 24 {
                None
            } else {
                match spec_xsalsa20poly1305_decrypt(collection_key, nonce, encrypted_key) {
                    None => Some(Err(DecryptStep::FileKey)),
                    Some(file_key) => if file_key.len() != 32 {
                        None
                    } else {
                        match spec_base64_decode(record.encrypted_metadata@) {
                            Err(_) => Some(Err(DecryptStep::MetadataText)),
                            Ok(metadata) => match spec_base64_decode(record.file_decryption_header@) {
                                Err(_) => Some(Err(DecryptStep::HeaderText)),
                                Ok(header) => if header.len() != 24 {
                                    None
                                } else {
                                    match spec_xchacha20poly1305_decrypt(file_key, header, metadata) {
                                        None => Some(Err(DecryptStep::Metadata)),
                                        Some(plaintext) => Some(Ok((file_key, plaintext))),
                                    }
                                },
                            },
                        }
                    },
                }
            },
        },
    }
}

/// A record whose file key was encrypted under the collection key and whose
/// metadata was encrypted under the file key, each written in base64,
/// decrypts to that file key and metadata.
pub proof fn lemma_record_roundtrip(
    record: EncryptedFileRecord,
    collection_key: Seq<u8>,
    file_key: Seq<u8>,
    key_nonce: Seq<u8>,
    wrapped_key: Seq<u8>,
    header: Seq<u8>,
    metadata: Seq<u8>,
    metadata_ciphertext: Seq<u8>,
)
    requires
        file_key.len() == 32,
        key_nonce.len() == 24,
        header.len() == 24,
        secretbox_sealed(collection_key, key_nonce, file_key, wrapped_key),
        stream_sealed(file_key, header, metadata, metadata_ciphertext),
        spec_base64_decode(record.encrypted_key@) == Ok::<Seq<u8>, Seq<char>>(wrapped_key),
        spec_base64_decode(record.key_decryption_nonce@) == Ok::<Seq<u8>, Seq<char>>(key_nonce),
        spec_base64_decode(record.encrypted_metadata@) == Ok::<Seq<u8>, Seq<char>>(metadata_ciphertext),
        spec_base64_decode(record.file_decryption_header@) == Ok::<Seq<u8>, Seq<char>>(header),
    ensures
        record_decryption(record, collection_key) == Some(
            Ok::<(Seq<u8>, Seq<u8>), DecryptStep>((file_key, metadata)),
        ),
{
}

/// `e` is the error reported when decrypting the record `id` fails at `step`.
pub open spec fn decrypt_error(step: DecryptStep, record: EncryptedFileRecord, e: SyncError) -> bool {
    match step {
        DecryptStep::EncryptedKeyText => e matches SyncError::ParseError(m)
            && m@ == "base64 decode encrypted_key: "@ + base64_error(record.encrypted_key@),
        DecryptStep::KeyNonceText => e matches SyncError::ParseError(m)
            && m@ == "base64 decode key_nonce: "@ + base64_error(record.key_decryption_nonce@),
        DecryptStep::MetadataText => e matches SyncError::ParseError(m)
            && m@ == "base64 decode encrypted_metadata: "@ + base64_error(record.encrypted_metadata@),
        DecryptStep::HeaderText => e matches SyncError::ParseError(m)
            && m@ == "base64 decode file_decryption_header: "@ + base64_error(record.file_decryption_header@),
        DecryptStep::FileKey | DecryptStep::Metadata => e == SyncError::DecryptionFailed {
            file_id: record.id,
            source: CryptoError::MacMismatch,
        },
    }
}

/// A decrypted record: the record, its file key and its serialized metadata.
pub struct DecryptedFile<'a> {
    pub record: &'a EncryptedFileRecord,
    pub file_key: Key256,
    pub metadata_json: Vec<u8>,
}

/// `d` is what decryption gave for `record`.
pub open spec fn decrypted_as(d: DecryptedFile, record: EncryptedFileRecord, file_key: Seq<u8>, metadata: Seq<u8>) -> bool {
    &&& *d.record == record
    &&& d.file_key@ == file_key
    &&& d.metadata_json@ == metadata
}

/// The outcome of decrypting `record`, as `record_decryption` describes it.
pub open spec fn decrypt_outcome(record: EncryptedFileRecord, collection_key: Seq<u8>, r: Result<DecryptedFile, SyncError>) -> bool {
    match record_decryption(record, collection_key) {
        Some(Ok((file_key, metadata))) => r matches Ok(d) && decrypted_as(d, record, file_key, metadata),
        Some(Err(step)) => r matches Err(e) && decrypt_error(step, record, e),
        None => false,
    }
}

/// Decodes a base64 field; a failure is a `ParseError` with the given prefix.
fn decode_field(text: &String, prefix: &str) -> (r: Result<Vec<u8>, SyncError>)
    ensures
        r is Ok <==> spec_base64_decode(text@) is Ok,
        r matches Ok(v) ==> Ok::<Seq<u8>, Seq<char>>(v@) == spec_base64_decode(text@),
        r matches Err(e) ==> (e matches SyncError::ParseError(m) && m@ == prefix@ + ": "@ + base64_error(text@)),
{
    match base64_standard_decode(text.as_str()) {
        Ok(v) => Ok(v),
        Err(message) => {
            let mut m = String::from_str(prefix);
            m.append(": ");
            m.append(message.as_str());
            Err(SyncError::ParseError(m))
        },
    }
}

/// Decrypts one record, or gives `None` on the inputs on which decryption
/// cannot proceed (see `record_decryption`).
pub fn decrypt_single_checked<'a>(record: &'a EncryptedFileRecord, collection_key: &Key256) -> (r: Option<Result<DecryptedFile<'a>, SyncError>>)
    ensures
        r is None <==> record_decryption(*record, collection_key@) is None,
        r matches Some(res) ==> decrypt_outcome(*record, collection_key@, res),
{
    proof {
        reveal_strlit("base64 decode encrypted_key");
        reveal_strlit("base64 decode key_nonce");
        reveal_strlit("base64 decode encrypted_metadata");
        reveal_strlit("base64 decode file_decryption_header");
        reveal_strlit(": ");
        reveal_strlit("base64 decode encrypted_key: ");
        reveal_strlit("base64 decode key_nonce: ");
        reveal_strlit("base64 decode encrypted_metadata: ");
        reveal_strlit("base64 decode file_decryption_header: ");
    }
    let encrypted_key = match decode_field(&record.encrypted_key, "base64 decode encrypted_key") {
        Ok(v) => v,
        Err(e) => {
            assert("base64 decode encrypted_key"@ + ": "@ =~= "base64 decode encrypted_key: "@);
            return Some(Err(e));
        },
    };
    let key_nonce = match decode_field(&record.key_decryption_nonce, "base64 decode key_nonce") {
        Ok(v) => v,
        Err(e) => {
            assert("base64 decode key_nonce"@ + ": "@ =~= "base64 decode key_nonce: "@);
            return Some(Err(e));
        },
    };
    if key_nonce.len() != 24 {
        return None;
    }
    let nonce_arr = array24_at(key_nonce.as_slice(), 0);
    proof {
        assert(key_nonce@.subrange(0, 24) =~= key_nonce@);
    }
    let file_key_bytes = match secretbox_decrypt(&Nonce24::new(nonce_arr), encrypted_key.as_slice(), collection_key) {
        Ok(p) => p,
        Err(e) => {
            return Some(Err(SyncError::DecryptionFailed { file_id: record.id, source: e }));
        },
    };
    if file_key_bytes.len() != 32 {
        return None;
    }
    let file_key_arr = array32_at(file_key_bytes.as_slice(), 0);
    proof {
        assert(file_key_bytes@.subrange(0, 32) =~= file_key_bytes@);
    }
    let file_key = Key256::new(file_key_arr);

    let metadata_bytes = match decode_field(&record.encrypted_metadata, "base64 decode encrypted_metadata") {
        Ok(v) => v,
        Err(e) => {
            assert("base64 decode encrypted_metadata"@ + ": "@ =~= "base64 decode encrypted_metadata: "@);
            return Some(Err(e));
        },
    };
    let header_bytes = match decode_field(&record.file_decryption_header, "base64 decode file_decryption_header") {
        Ok(v) => v,
        Err(e) => {
            assert("base64 decode file_decryption_header"@ + ": "@ =~= "base64 decode file_decryption_header: "@);
            return Some(Err(e));
        },
    };
    if header_bytes.len() != 24 {
        return None;
    }
    let header_arr = array24_at(header_bytes.as_slice(), 0);
    proof {
        assert(header_bytes@.subrange(0, 24) =~= header_bytes@);
    }
    let metadata_plaintext = match stream_decrypt(&Header24::new(header_arr), metadata_bytes.as_slice(), &file_key) {
        Ok(p) => p,
        Err(e) => {
            return Some(Err(SyncError::DecryptionFailed { file_id: record.id, source: e }));
        },
    };
    Some(Ok(DecryptedFile { record, file_key, metadata_json: metadata_plaintext }))
}

/// Decrypts one record. The inputs on which decryption cannot proceed (see
/// `record_decryption`) are left out.
pub fn decrypt_single<'a>(record: &'a EncryptedFileRecord, collection_key: &Key256) -> (r: Result<DecryptedFile<'a>, SyncError>)
    requires
        record_decryption(*record, collection_key@) is Some,
    ensures
        decrypt_outcome(*record, collection_key@, r),
{
    decrypt_single_checked(record, collection_key).unwrap()
}

/// The decryptions of the records that decrypt, in their order: the records
/// whose decryption fails are skipped.
pub open spec fn decrypted_records(records: Seq<EncryptedFileRecord>, collection_key: Seq<u8>) -> Seq<(EncryptedFileRecord, Seq<u8>, Seq<u8>)>
    decreases records.len(),
{
    if records.len() == 0 {
        seq![]
    } else {
        let before = decrypted_records(records.drop_last(), collection_key);
        match record_decryption(records.last(), collection_key) {
            Some(Ok((file_key, metadata))) => before.push((records.last(), file_key, metadata)),
            _ => before,
        }
    }
}

/// Whether a record decrypts under the collection key `k`.
pub open spec fn decrypts_under(k: Seq<u8>) -> spec_fn(EncryptedFileRecord) -> bool {
    |r: EncryptedFileRecord| record_decryption(r, k) matches Some(Ok(_))
}

/// A record with the file key and metadata it decrypts to under `k`.
pub open spec fn decryption_under(k: Seq<u8>) -> spec_fn(EncryptedFileRecord) -> (EncryptedFileRecord, Seq<u8>, Seq<u8>) {
    |r: EncryptedFileRecord|
        match record_decryption(r, k) {
            Some(Ok((file_key, metadata))) => (r, file_key, metadata),
            _ => (r, Seq::empty(), Seq::empty()),
        }
}

/// A batch decrypts to exactly the decryptions of the records that decrypt
/// on their own, in the order of the records: a record that fails takes out
/// only itself. So every record `i` that decrypts to `(file_key, metadata)`
/// is listed with them, whatever the other records are.
pub proof fn lemma_batch_keeps_every_decryption(records: Seq<EncryptedFileRecord>, k: Seq<u8>)
    ensures
        decrypted_records(records, k) == records.filter(decrypts_under(k)).map_values(decryption_under(k)),
        decrypted_records(records, k).len() <= records.len(),
        forall|i: int|
            0 <= i < records.len() ==> (#[trigger] record_decryption(records[i], k) matches Some(Ok((file_key, metadata))) ==>
                decrypted_records(records, k).contains((records[i], file_key, metadata))),
        forall|j: int|
            0 <= j < decrypted_records(records, k).len() ==> {
                let (record, file_key, metadata) = #[trigger] decrypted_records(records, k)[j];
                &&& records.contains(record)
                &&& record_decryption(record, k) == Some(Ok::<(Seq<u8>, Seq<u8>), DecryptStep>((file_key, metadata)))
            },
    decreases records.len(),
{
    reveal(Seq::filter);
    let out = decrypted_records(records, k);
    if records.len() > 0 {
        lemma_batch_keeps_every_decryption(records.drop_last(), k);
        let before = records.drop_last().filter(decrypts_under(k));
        assert(records.filter(decrypts_under(k)) == if decrypts_under(k)(records.last()) {
            before.push(records.last())
        } else {
            before
        });
        if decrypts_under(k)(records.last()) {
            assert(before.push(records.last()).map_values(decryption_under(k)) =~= before.map_values(
                decryption_under(k),
            ).push(decryption_under(k)(records.last())));
        }
        assert(out =~= records.filter(decrypts_under(k)).map_values(decryption_under(k)));
        assert forall|i: int|
            0 <= i < records.len() && (#[trigger] record_decryption(records[i], k) matches Some(Ok((file_key, metadata)))) implies
                out.contains((records[i], record_decryption(records[i], k)->Some_0->Ok_0.0, record_decryption(records[i], k)->Some_0->Ok_0.1)) by {
            let e = (records[i], record_decryption(records[i], k)->Some_0->Ok_0.0, record_decryption(records[i], k)->Some_0->Ok_0.1);
            let prev = decrypted_records(records.drop_last(), k);
            if i < records.len() - 1 {
                assert(records.drop_last()[i] == records[i]);
                let j = choose|j: int| 0 <= j < prev.len() && prev[j] == e;
                assert(out[j] == e);
            } else {
                assert(out[out.len() - 1] == e);
            }
        }
        let prev = decrypted_records(records.drop_last(), k);
        assert forall|j: int| 0 <= j < out.len() implies {
            let (record, file_key, metadata) = #[trigger] out[j];
            &&& records.contains(record)
            &&& record_decryption(record, k) == Some(Ok::<(Seq<u8>, Seq<u8>), DecryptStep>((file_key, metadata)))
        } by {
            if j < prev.len() {
                assert(out[j] == prev[j]);
                let i = choose|i: int| 0 <= i < records.drop_last().len() && records.drop_last()[i] == prev[j].0;
                assert(records[i] == prev[j].0);
            } else {
                assert(records[records.len() - 1] == out[j].0);
            }
        }
    }
}

/// A list of decryptions that lists the batch's decryptions holds, for every
/// record that decrypts, that record with its file key and metadata.
proof fn lemma_listed_decryptions(v: Seq<DecryptedFile>, records: Seq<EncryptedFileRecord>, k: Seq<u8>)
    requires
        lists_decrypted(v, decrypted_records(records, k)),
    ensures
        forall|i: int|
            0 <= i < records.len() ==> (#[trigger] record_decryption(records[i], k) matches Some(
                Ok((file_key, metadata)),
            ) ==> exists|j: int|
                0 <= j < v.len() && *v[j].record == records[i] && v[j].file_key@ == file_key
                    && v[j].metadata_json@ == metadata),
{
    lemma_batch_keeps_every_decryption(records, k);
    let out = decrypted_records(records, k);
    assert forall|i: int| 0 <= i < records.len() implies (#[trigger] record_decryption(records[i], k) matches Some(
        Ok((file_key, metadata)),
    ) ==> exists|j: int|
        0 <= j < v.len() && *v[j].record == records[i] && v[j].file_key@ == file_key && v[j].metadata_json@
            == metadata) by {
        if record_decryption(records[i], k) is Some && record_decryption(records[i], k)->Some_0 is Ok {
            let (file_key, metadata) = record_decryption(records[i], k)->Some_0->Ok_0;
            let e = (records[i], file_key, metadata);
            assert(out.contains(e));
            let j = choose|j: int| 0 <= j < out.len() && out[j] == e;
            assert(decrypted_as(v[j], out[j].0, out[j].1, out[j].2));
            assert(0 <= j < v.len() && *v[j].record == records[i] && v[j].file_key@ == file_key
                && v[j].metadata_json@ == metadata);
        }
    }
}

/// Every record can be decrypted or rejected (none is left out by
/// `record_decryption`).
pub open spec fn all_decidable(records: Seq<EncryptedFileRecord>, collection_key: Seq<u8>) -> bool {
    forall|i: int| 0 <= i < records.len() ==> (#[trigger] record_decryption(records[i], collection_key)) is Some
}

/// `out` lists the decryptions `expected`, in order.
pub open spec fn lists_decrypted(out: Seq<DecryptedFile>, expected: Seq<(EncryptedFileRecord, Seq<u8>, Seq<u8>)>) -> bool {
    &&& out.len() == expected.len()
    &&& forall|i: int| 0 <= i < out.len() ==> decrypted_as(#[trigger] out[i], expected[i].0, expected[i].1, expected[i].2)
}

/// Decrypts a batch of records, skipping those that fail, in order, or gives
/// `None` when one of them is among the inputs on which decryption cannot
/// proceed.
pub fn batch_decrypt_files_checked<'a>(records: &'a [EncryptedFileRecord], collection_key: &Key256) -> (r: Option<Result<Vec<DecryptedFile<'a>>, SyncError>>)
    ensures
        r is None <==> !all_decidable(records@, collection_key@),
        r matches Some(res) ==> (res matches Ok(v) && lists_decrypted(v@, decrypted_records(records@, collection_key@))),
        r matches Some(Ok(v)) ==> forall|i: int|
            0 <= i < records@.len() ==> (#[trigger] record_decryption(records@[i], collection_key@) matches Some(
                Ok((file_key, metadata)),
            ) ==> exists|j: int|
                0 <= j < v@.len() && *v@[j].record == records@[i] && v@[j].file_key@ == file_key
                    && v@[j].metadata_json@ == metadata),
{
    let mut decrypted: Vec<DecryptedFile<'a>> = Vec::new();
    let mut i: usize = 0;
    while i < records.len()
        invariant
            i <= records@.len(),
            forall|j: int| 0 <= j < i ==> (#[trigger] record_decryption(records@[j], collection_key@)) is Some,
            lists_decrypted(decrypted@, decrypted_records(records@.take(i as int), collection_key@)),
        decreases records@.len() - i,
    {
        let record = &records[i];
        proof {
            assert(records@.take(i + 1).drop_last() =~= records@.take(i as int));
            assert(records@.take(i + 1).last() == records@[i as int]);
        }
        match decrypt_single_checked(record, collection_key) {
            Some(Ok(file_record)) => decrypted.push(file_record),
            Some(Err(_)) => {},
            None => return None,
        }
        i = i + 1;
    }
    proof {
        assert(records@.take(records@.len() as int) =~= records@);
        lemma_listed_decryptions(decrypted@, records@, collection_key@);
    }
    let r = Some(Ok(decrypted));
    assert(r matches Some(Ok(v)) && v@ == decrypted@);
    r
}

/// Decrypts a batch of records, skipping those that fail, in order. The
/// inputs on which a decryption cannot proceed are left out.
pub fn batch_decrypt_files<'a>(records: &'a [EncryptedFileRecord], collection_key: &Key256) -> (r: Result<Vec<DecryptedFile<'a>>, SyncError>)
    requires
        all_decidable(records@, collection_key@),
    ensures
        r matches Ok(v) && lists_decrypted(v@, decrypted_records(records@, collection_key@)),
{
    batch_decrypt_files_checked(records, collection_key).unwrap()
}

} // verus!
