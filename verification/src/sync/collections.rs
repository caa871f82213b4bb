//! The decisions of collection sync: decrypting each collection's name with
//! the master key and choosing the cursor to continue from.
use vstd::prelude::*;
use crate::bytes::array24_at;
use crate::crypto::aead::{secretbox_decrypt, secretbox_sealed};
use crate::crypto::error::{crypto_error_message, CryptoError};
use crate::crypto::primitives::{base64_error, base64_standard_decode, spec_base64_decode, spec_xsalsa20poly1305_decrypt};
use crate::crypto::types::{Key256, Nonce24};
use crate::sync::error::SyncError;

verus! {

/// A collection as the server sends it.
#[derive(Debug, Clone)]
pub struct EncryptedCollection {
    pub id: String,
    pub encrypted_name: String,
    pub name_decryption_nonce: String,
    pub encrypted_key: String,
    pub key_decryption_nonce: String,
    pub updation_time: i64,
}

/// A page of collections changed since a cursor.
#[derive(Debug, Clone)]
pub struct SyncCollectionResponse {
    pub collections: Vec<EncryptedCollection>,
    pub latest_updated_at: i64,
    pub has_more: bool,
}

/// A collection with its name decrypted, as stored locally.
#[derive(Debug, Clone)]
pub struct Collection {
    pub id: String,
    pub name: String,
    pub encrypted_key: String,
    pub key_nonce: String,
    pub updation_time: i64,
    pub created_at: i64,
    pub archived_at: Option<i64>,
}

/// The text that `bytes` decodes to as UTF-8, when they are valid UTF-8.
pub open spec fn utf8_text(bytes: Seq<u8>) -> Option<Seq<char>> {
    if vstd::utf8::valid_utf8(bytes) {
        Some(vstd::utf8::decode_utf8(bytes))
    } else {
        None
    }
}

/// `String::from_utf8`; the error becomes its message. std documents that it
/// accepts exactly the valid UTF-8 byte strings. Nothing is claimed of the
/// message's text.
#[verifier::external_body]
fn string_from_utf8(bytes: Vec<u8>) -> (r: Result<String, String>)
    ensures
        r is Ok <==> vstd::utf8::valid_utf8(bytes@),
        r matches Ok(s) ==> s@ == vstd::utf8::decode_utf8(bytes@),
{
    match String::from_utf8(bytes) {
        Ok(s) => Ok(s),
        Err(e) => Err(e.to_string()),
    }
}

/// The step at which decrypting a collection's name failed.
#[derive(Debug, Clone, Copy, PartialEq, Eq, Structural)]
pub enum NameStep {
    NameText,
    NonceText,
    Decrypt,
    Utf8,
}

/// What decrypting a collection's name gives: the name, or the step that
/// failed. `None` stands for a nonce that is not 24 bytes, on which the
/// decryption cannot proceed.
pub open spec fn name_decryption(encrypted_name: Seq<char>, name_nonce: Seq<char>, master_key: Seq<u8>) -> Option<Result<Seq<char>, NameStep>> {
    match spec_base64_decode(encrypted_name) {
        Err(_) => Some(Err(NameStep::NameText)),
        Ok(ct) => match spec_base64_decode(name_nonce) {
            Err(_) => Some(Err(NameStep::NonceText)),
            Ok(nonce) => if nonce.len() != 24 {
                None
            } else {
                match spec_xsalsa20poly1305_decrypt(master_key, nonce, ct) {
                    None => Some(Err(NameStep::Decrypt)),
                    Some(plain) => match utf8_text(plain) {
                        None => Some(Err(NameStep::Utf8)),
                        Some(name) => Some(Ok(name)),
                    },
                }
            },
        },
    }
}

/// A name encrypted under the master key, with its ciphertext and nonce
/// written in base64, decrypts to that name.
pub proof fn lemma_name_roundtrip(
    encrypted_name: Seq<char>,
    name_nonce: Seq<char>,
    master_key: Seq<u8>,
    nonce: Seq<u8>,
    ciphertext: Seq<u8>,
    name: Seq<char>,
)
    requires
        nonce.len() == 24,
        secretbox_sealed(master_key, nonce, vstd::utf8::encode_utf8(name), ciphertext),
        spec_base64_decode(encrypted_name) == Ok::<Seq<u8>, Seq<char>>(ciphertext),
        spec_base64_decode(name_nonce) == Ok::<Seq<u8>, Seq<char>>(nonce),
    ensures
        name_decryption(encrypted_name, name_nonce, master_key) == Some(Ok::<Seq<char>, NameStep>(name)),
{
    vstd::utf8::encode_utf8_valid_utf8(name);
    vstd::utf8::encode_utf8_decode_utf8(name);
}

/// `e` is the error reported when decrypting a name fails at `step`.
pub open spec fn name_error(step: NameStep, encrypted_name: Seq<char>, name_nonce: Seq<char>, e: SyncError) -> bool {
    e matches SyncError::ParseError(m) && match step {
        NameStep::NameText => m@ == "base64 decode encrypted_name: "@ + base64_error(encrypted_name),
        NameStep::NonceText => m@ == "base64 decode name_nonce: "@ + base64_error(name_nonce),
        NameStep::Decrypt => m@ == "decrypt collection name: "@ + crypto_error_message(CryptoError::MacMismatch),
        NameStep::Utf8 => exists|cause: Seq<char>| m@ == "collection name not utf8: "@ + cause,
    }
}

/// The outcome of decrypting a name, as `name_decryption` describes it.
pub open spec fn name_outcome(encrypted_name: Seq<char>, name_nonce: Seq<char>, master_key: Seq<u8>, r: Result<String, SyncError>) -> bool {
    match name_decryption(encrypted_name, name_nonce, master_key) {
        Some(Ok(name)) => r matches Ok(s) && s@ == name,
        Some(Err(step)) => r matches Err(e) && name_error(step, encrypted_name, name_nonce, e),
        None => false,
    }
}

fn parse_error(prefix: &str, cause: &String) -> (e: SyncError)
    ensures
        e matches SyncError::ParseError(m) && m@ == prefix@ + cause@,
{
    let mut m = String::from_str(prefix);
    m.append(cause.as_str());
    SyncError::ParseError(m)
}

/// Decrypts a collection's name with the master key, or gives `None` on a
/// nonce that is not 24 bytes.
pub fn decrypt_collection_name(encrypted_name: &str, name_nonce: &str, master_key: &Key256) -> (r: Option<Result<String, SyncError>>)
    ensures
        r is None <==> name_decryption(encrypted_name@, name_nonce@, master_key@) is None,
        r matches Some(res) ==> name_outcome(encrypted_name@, name_nonce@, master_key@, res),
{
    let name_bytes = match base64_standard_decode(encrypted_name) {
        Ok(v) => v,
        Err(cause) => return Some(Err(parse_error("base64 decode encrypted_name: ", &cause))),
    };
    let nonce_bytes = match base64_standard_decode(name_nonce) {
        Ok(v) => v,
        Err(cause) => return Some(Err(parse_error("base64 decode name_nonce: ", &cause))),
    };
    if nonce_bytes.len() != 24 {
        return None;
    }
    let nonce_arr = array24_at(nonce_bytes.as_slice(), 0);
    proof {
        assert(nonce_bytes@.subrange(0, 24) =~= nonce_bytes@);
    }
    let plain = match secretbox_decrypt(&Nonce24::new(nonce_arr), name_bytes.as_slice(), master_key) {
        Ok(p) => p,
        Err(e) => {
            let cause = e.to_string();
            return Some(Err(parse_error("decrypt collection name: ", &cause)));
        },
    };
    match string_from_utf8(plain) {
        Ok(name) => Some(Ok(name)),
        Err(cause) => Some(Err(parse_error("collection name not utf8: ", &cause))),
    }
}


/// The local record of a collection whose name decrypted to `name`.
pub open spec fn collection_record(coll: EncryptedCollection, name: Seq<char>, c: Collection) -> bool {
    &&& c.id == coll.id
    &&& c.name@ == name
    &&& c.encrypted_key == coll.encrypted_key
    &&& c.key_nonce == coll.key_decryption_nonce
    &&& c.updation_time == coll.updation_time
    &&& c.created_at == 0
    &&& c.archived_at is None
}

/// A collection that sync stores is live: not archived, with no creation
/// time of its own, under the server's identifier and update time.
pub proof fn lemma_synced_collection_is_live(coll: EncryptedCollection, name: Seq<char>, c: Collection)
    requires
        collection_record(coll, name, c),
    ensures
        c.archived_at is None,
        c.created_at == 0,
        c.id == coll.id,
        c.updation_time == coll.updation_time,
{
}

/// Why the processing of a page stopped before its end.
#[derive(Debug, Clone)]
pub enum PageStop {
    /// The sync fails with this error.
    Failed(SyncError),
    /// A collection's name nonce is not 24 bytes: the sync cannot proceed.
    Undecidable,
}

/// What to do with a page of collections: store `collections` in order, then
/// stop if `stop` says so; else write `cursor` and fetch again from
/// `next_since` if `has_more`. An empty page (`done`) ends the sync.
pub struct CollectionsPagePlan {
    pub done: bool,
    pub collections: Vec<Collection>,
    pub stop: Option<PageStop>,
    pub next_since: i64,
    pub cursor: i64,
    pub has_more: bool,
}

/// The names of the first `n` collections decrypt.
pub open spec fn names_decrypt(colls: Seq<EncryptedCollection>, master_key: Seq<u8>, n: int) -> bool {
    forall|i: int|
        0 <= i < n ==> (#[trigger] name_decryption(colls[i].encrypted_name@, colls[i].name_decryption_nonce@, master_key)) matches Some(Ok(_))
}

/// `stop` reports the outcome of decrypting the name of `coll`, which failed.
pub open spec fn stop_for(coll: EncryptedCollection, master_key: Seq<u8>, stop: PageStop) -> bool {
    match name_decryption(coll.encrypted_name@, coll.name_decryption_nonce@, master_key) {
        None => stop is Undecidable,
        Some(Err(step)) => stop matches PageStop::Failed(e) && name_error(
            step,
            coll.encrypted_name@,
            coll.name_decryption_nonce@,
            e,
        ),
        Some(Ok(_)) => false,
    }
}

/// The error for a sync without a master key.
pub open spec fn not_authenticated(e: SyncError) -> bool {
    e matches SyncError::NetworkError(m) && m@ == "not authenticated"@
}

/// Plans the processing of a page of collections fetched from `since`. The
/// names are decrypted in order until one fails; the cursor to fetch from
/// next is the change time of the last collection processed.
pub fn plan_collections_page(page: &SyncCollectionResponse, master_key: Option<&Key256>, since: i64) -> (plan: CollectionsPagePlan)
    ensures
        plan.done <==> page.collections@.len() == 0,
        !plan.done && master_key is None ==> plan.collections@.len() == 0 && (plan.stop matches Some(PageStop::Failed(e)) && not_authenticated(e)),
        (!plan.done && master_key is Some) ==> {
            let k = master_key.unwrap();
            let n = plan.collections@.len() as int;
            let colls = page.collections@;
            &&& n <= colls.len()
            &&& names_decrypt(colls, k@, n)
            &&& forall|i: int| 0 <= i < n ==> (name_decryption(colls[i].encrypted_name@, colls[i].name_decryption_nonce@, k@) matches Some(Ok(name))
                && collection_record(colls[i], name, #[trigger] plan.collections@[i]))
            &&& n < colls.len() ==> (plan.stop matches Some(s) && stop_for(colls[n], k@, s))
            &&& n == colls.len() ==> plan.stop is None
            &&& plan.next_since == (if n == 0 { since } else { colls[n - 1].updation_time })
        },
        forall|i: int| 0 <= i < plan.collections@.len() ==> (#[trigger] plan.collections@[i]).archived_at is None,
        forall|i: int| 0 <= i < plan.collections@.len() ==> (#[trigger] plan.collections@[i]).created_at == 0,
        plan.cursor == page.latest_updated_at,
        plan.has_more == page.has_more,
{
    proof {
        reveal_strlit("not authenticated");
    }
    if page.collections.len() == 0 {
        return CollectionsPagePlan {
            done: true,
            collections: Vec::new(),
            stop: None,
            next_since: since,
            cursor: page.latest_updated_at,
            has_more: page.has_more,
        };
    }
    let key = match master_key {
        Some(k) => k,
        None => {
            return CollectionsPagePlan {
                done: false,
                collections: Vec::new(),
                stop: Some(PageStop::Failed(SyncError::NetworkError(String::from_str("not authenticated")))),
                next_since: since,
                cursor: page.latest_updated_at,
                has_more: page.has_more,
            };
        },
    };
    let mut collections: Vec<Collection> = Vec::new();
    let mut stop: Option<PageStop> = None;
    let mut next_since = since;
    let mut i: usize = 0;
    let ghost colls = page.collections@;
    while i < page.collections.len()
        invariant_except_break
            stop is None,
        invariant
            colls == page.collections@,
            i <= colls.len(),
            collections@.len() == i,
            names_decrypt(colls, key@, i as int),
            forall|j: int| 0 <= j < i ==> (name_decryption(colls[j].encrypted_name@, colls[j].name_decryption_nonce@, key@) matches Some(Ok(name))
                && collection_record(colls[j], name, #[trigger] collections@[j])),
            next_since == (if i == 0 { since } else { colls[i - 1].updation_time }),
        ensures
            (stop is None && i == colls.len()) || (i < colls.len() && (stop matches Some(s) && stop_for(colls[i as int], key@, s))),
        decreases colls.len() - i,
    {
        let coll = &page.collections[i];
        match decrypt_collection_name(coll.encrypted_name.as_str(), coll.name_decryption_nonce.as_str(), key) {
            Some(Ok(name)) => {
                let record = Collection {
                    id: coll.id.clone(),
                    name,
                    encrypted_key: coll.encrypted_key.clone(),
                    key_nonce: coll.key_decryption_nonce.clone(),
                    updation_time: coll.updation_time,
                    created_at: 0,
                    archived_at: None,
                };
                collections.push(record);
                next_since = coll.updation_time;
            },
            Some(Err(e)) => {
                stop = Some(PageStop::Failed(e));
                break;
            },
            None => {
                stop = Some(PageStop::Undecidable);
                break;
            },
        }
        i = i + 1;
    }
    CollectionsPagePlan {
        done: false,
        collections,
        stop,
        next_since,
        cursor: page.latest_updated_at,
        has_more: page.has_more,
    }
}

} // verus!
