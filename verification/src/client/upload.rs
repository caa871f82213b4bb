//! Preparing a file for upload: its content hash, size, MIME type, and the
//! MD5 of each 20 MiB part.
use vstd::prelude::*;
use sha2::Digest;
use crate::crypto::primitives::{hex_lower_encode, spec_hex_encode};

verus! {

/// The SHA-256 digest of `data`.
pub uninterp spec fn spec_sha256(data: Seq<u8>) -> Seq<u8>;

/// The MD5 digest of `data`.
pub uninterp spec fn spec_md5(data: Seq<u8>) -> Seq<u8>;

/// The MIME type that `infer` recognizes from the leading bytes of `data`.
pub uninterp spec fn spec_infer_mime(data: Seq<u8>) -> Option<Seq<char>>;

/// `sha2::Sha256::digest`.
#[verifier::external_body]
fn sha256(data: &[u8]) -> (d: Vec<u8>)
    ensures
        d@ == spec_sha256(data@),
{
    sha2::Sha256::digest(data).to_vec()
}

/// `md5::compute`, written with its `LowerHex` format, which the source
/// defines as two lower-case digits per byte.
#[verifier::external_body]
fn md5_hex(data: &[u8]) -> (s: String)
    ensures
        s@ == spec_hex_encode(spec_md5(data@)),
{
    format!("{:x}", md5::compute(data))
}

/// `infer::get(data).map(|t| t.mime_type())`.
#[verifier::external_body]
fn infer_mime(data: &[u8]) -> (m: Option<String>)
    ensures
        match m {
            Some(s) => spec_infer_mime(data@) == Some(s@),
            None => spec_infer_mime(data@) is None,
        },
{
    infer::get(data).map(|t| t.mime_type().to_string())
}

/// The size of an upload part: 20 MiB.
pub const UPLOAD_PART_SIZE: usize = 20971520;

/// The number of parts of a file of `len` bytes, as the 16-bit count the
/// upload carries: the ceiling of `len` over the part size, modulo 2^16.
pub open spec fn spec_part_count(len: nat) -> u16 {
    (((len + UPLOAD_PART_SIZE - 1) / (UPLOAD_PART_SIZE as int)) % 65536) as u16
}

/// The bytes of part `i` of `data`.
pub open spec fn spec_part(data: Seq<u8>, i: int) -> Seq<u8> {
    let start = i * UPLOAD_PART_SIZE;
    let end = if start + UPLOAD_PART_SIZE < data.len() { start + UPLOAD_PART_SIZE } else { data.len() as int };
    data.subrange(start, end)
}

/// The first `n` parts of `data`, one after another.
pub open spec fn joined_parts(data: Seq<u8>, n: nat) -> Seq<u8>
    decreases n,
{
    if n == 0 {
        seq![]
    } else {
        joined_parts(data, (n - 1) as nat) + spec_part(data, n - 1)
    }
}

/// The first `n` parts are the first `n` part sizes of the bytes, as long as
/// each of them starts within the data.
proof fn lemma_joined_parts_prefix(data: Seq<u8>, n: nat)
    requires
        n == 0 || (n - 1) * UPLOAD_PART_SIZE < data.len(),
    ensures
        joined_parts(data, n) == data.take(
            if n * UPLOAD_PART_SIZE < data.len() { n * UPLOAD_PART_SIZE } else { data.len() as int },
        ),
    decreases n,
{
    if n > 0 {
        let m = (n - 1) as nat;
        assert(m * UPLOAD_PART_SIZE <= n * UPLOAD_PART_SIZE) by (nonlinear_arith)
            requires
                m + 1 == n,
        ;
        assert(m == 0 || (m - 1) * UPLOAD_PART_SIZE < data.len()) by (nonlinear_arith)
            requires
                m + 1 == n,
                (n - 1) * UPLOAD_PART_SIZE < data.len(),
        ;
        lemma_joined_parts_prefix(data, m);
        assert(n * UPLOAD_PART_SIZE == m * UPLOAD_PART_SIZE + UPLOAD_PART_SIZE) by (nonlinear_arith)
            requires
                m + 1 == n,
        ;
        assert(joined_parts(data, n) =~= data.take(
            if n * UPLOAD_PART_SIZE < data.len() { n * UPLOAD_PART_SIZE } else { data.len() as int },
        ));
    }
}

/// The parts of a file, one after another, are the whole file, as long as
/// their number fits the 16-bit count.
pub proof fn lemma_parts_cover_file(data: Seq<u8>)
    requires
        (data.len() + UPLOAD_PART_SIZE - 1) / (UPLOAD_PART_SIZE as int) < 65536,
    ensures
        joined_parts(data, spec_part_count(data.len()) as nat) == data,
{
    let n = spec_part_count(data.len()) as nat;
    let total = (data.len() + UPLOAD_PART_SIZE - 1) / (UPLOAD_PART_SIZE as int);
    assert(n == total);
    assert(n * UPLOAD_PART_SIZE >= data.len()) by (nonlinear_arith)
        requires
            n == (data.len() + UPLOAD_PART_SIZE - 1) / (UPLOAD_PART_SIZE as int),
            UPLOAD_PART_SIZE > 0,
    ;
    assert(n == 0 || (n - 1) * UPLOAD_PART_SIZE < data.len()) by (nonlinear_arith)
        requires
            n == (data.len() + UPLOAD_PART_SIZE - 1) / (UPLOAD_PART_SIZE as int),
            UPLOAD_PART_SIZE > 0,
    ;
    lemma_joined_parts_prefix(data, n);
    assert(data.take(data.len() as int) =~= data);
}

/// What an upload sends besides the bytes.
pub struct UploadPlan {
    pub file_hash: String,
    pub file_size: i64,
    pub mime_type: String,
    pub part_md5s: Vec<String>,
}

/// Plans the upload of a file's bytes: the hex SHA-256 of the content, its
/// size, the MIME type recognized from its bytes (else
/// "application/octet-stream"), and the hex MD5 of each part.
pub fn plan_upload(bytes: &[u8]) -> (plan: UploadPlan)
    requires
        bytes@.len() + UPLOAD_PART_SIZE <= i64::MAX,
    ensures
        plan.file_hash@ == spec_hex_encode(spec_sha256(bytes@)),
        plan.file_size == bytes@.len(),
        plan.mime_type@ == (match spec_infer_mime(bytes@) {
            Some(m) => m,
            None => "application/octet-stream"@,
        }),
        plan.part_md5s@.len() == spec_part_count(bytes@.len()),
        forall|i: int| 0 <= i < plan.part_md5s@.len() ==> (#[trigger] plan.part_md5s@[i])@ == spec_hex_encode(spec_md5(spec_part(bytes@, i))),
{
    let hash = sha256(bytes);
    let file_hash = hex_lower_encode(hash.as_slice());
    let file_size = bytes.len() as i64;
    let mime_type = match infer_mime(bytes) {
        Some(m) => m,
        None => String::from_str("application/octet-stream"),
    };
    let part_size = UPLOAD_PART_SIZE;
    let parts: i64 = (file_size + part_size as i64 - 1) / part_size as i64;
    let part_count = #[verifier::truncate] (parts as u16);
    proof {
        assert(parts >= 0);
        assert(parts == (bytes@.len() + UPLOAD_PART_SIZE - 1) / (UPLOAD_PART_SIZE as int));
        assert(part_count == (parts % 65536) as u16) by (bit_vector)
            requires
                part_count == parts as u16,
                parts >= 0,
        ;
        assert(part_count == spec_part_count(bytes@.len()));
        assert(part_count as int <= parts);
        assert(part_count as int * UPLOAD_PART_SIZE <= bytes@.len() + UPLOAD_PART_SIZE - 1) by (nonlinear_arith)
            requires
                part_count as int <= (bytes@.len() + UPLOAD_PART_SIZE - 1) / (UPLOAD_PART_SIZE as int),
        ;
    }
    let mut part_md5s: Vec<String> = Vec::new();
    let mut i: u16 = 0;
    while i < part_count
        invariant
            part_count == spec_part_count(bytes@.len()),
            part_count as int * UPLOAD_PART_SIZE <= bytes@.len() + UPLOAD_PART_SIZE - 1,
            bytes@.len() + UPLOAD_PART_SIZE <= i64::MAX,
            bytes@.len() == bytes.len(),
            part_size == UPLOAD_PART_SIZE,
            i <= part_count,
            part_md5s@.len() == i,
            forall|j: int| 0 <= j < i ==> (#[trigger] part_md5s@[j])@ == spec_hex_encode(spec_md5(spec_part(bytes@, j))),
        decreases part_count - i,
    {
        proof {
            assert((i as int) * UPLOAD_PART_SIZE + UPLOAD_PART_SIZE <= part_count as int * UPLOAD_PART_SIZE) by (nonlinear_arith)
                requires
                    i < part_count,
            ;
        }
        let start = (i as usize) * part_size;
        let end = if bytes.len() - start > part_size { start + part_size } else { bytes.len() };
        let part = &bytes[start..end];
        proof {
            assert(part@ == spec_part(bytes@, i as int));
        }
        part_md5s.push(md5_hex(part));
        i = i + 1;
    }
    UploadPlan { file_hash, file_size, mime_type, part_md5s }
}

} // verus!
