//! Key derivation: the key-encryption key from a password (Argon2id), and
//! keys derived from other keys (keyed BLAKE2b).
use vstd::prelude::*;
use crate::crypto::error::CryptoError;
use crate::crypto::primitives::{
    argon2_params, argon2id_hash, blake2b, spec_argon2id, spec_blake2b, Argon2Failure,
};
use crate::crypto::types::{spec_mem_limit, spec_ops_limit, Argon2Profile, Key256, Salt16};
use crate::crypto::key::result_key;
use crate::bytes::array32_at;
use vstd::string::StringSliceAdditionalSpecFns;

verus! {

/// Memory below which the password hash no longer halves its memory budget.
pub const KEK_MEMORY_FLOOR: u32 = 33554432;

/// The Argon2 memory cost, in KiB blocks, for a budget of `mem` bytes.
pub open spec fn argon2_m_cost(mem: u32) -> u32 {
    if mem / 1024 >= 1 {
        (mem / 1024) as u32
    } else {
        1
    }
}

/// Whether Argon2 accepts the costs that a memory budget of `mem` bytes and
/// `ops` passes give, with one lane.
pub open spec fn argon2_costs_accepted(mem: u32, ops: u32) -> bool {
    argon2_m_cost(mem) >= 8 && ops >= 1
}

/// The key that `derive_key` gives for a password, a salt, a memory budget
/// in bytes and a number of passes.
pub open spec fn spec_derive_key(password: Seq<u8>, salt: Seq<u8>, mem: u32, ops: u32) -> Result<Seq<u8>, CryptoError> {
    if argon2_costs_accepted(mem, ops) && password.len() <= 0xFFFFFFFF {
        Ok(spec_argon2id(password, salt, argon2_m_cost(mem), ops, 1))
    } else {
        Err(CryptoError::InvalidKey)
    }
}

/// The key-encryption key that `derive_kek` gives for a password, a salt and
/// a profile.
pub open spec fn spec_derive_kek(password: Seq<u8>, salt: Seq<u8>, profile: Argon2Profile) -> Result<Seq<u8>, CryptoError> {
    spec_derive_key(password, salt, spec_mem_limit(profile), spec_ops_limit(profile))
}

/// Derives a 32-byte key from a password with Argon2id (one lane) from a
/// memory budget of `mem_limit` bytes and `ops_limit` passes. Costs that
/// Argon2 refuses, or a password longer than 2^32 - 1 bytes, are
/// `InvalidKey`. A hash that asks for too much memory is retried with half
/// the memory and twice the passes while the memory stays above 32 MiB.
pub fn derive_key(password: &[u8], salt: &Salt16, mem_limit: u32, ops_limit: u32) -> (r: Result<Key256, CryptoError>)
    ensures
        result_key(r) == spec_derive_key(password@, salt@, mem_limit, ops_limit),
{
    let mut mem = mem_limit;
    let mut ops = ops_limit;
    let floor = KEK_MEMORY_FLOOR;

    loop
        invariant
            mem == mem_limit,
            ops == ops_limit,
            floor == KEK_MEMORY_FLOOR,
        decreases mem,
    {
        let m_cost = if mem / 1024 >= 1 { mem / 1024 } else { 1 };
        let t_cost = ops;
        let p_cost: u32 = 1;

        let params = match argon2_params(m_cost, t_cost, p_cost) {
            Some(p) => p,
            None => return Err(CryptoError::InvalidKey),
        };

        match argon2id_hash(&params, password, salt.as_bytes()) {
            Ok(output) => return Ok(Key256::new(output)),
            Err(Argon2Failure::MemoryTooMuch) => {
                if mem > floor {
                    mem = mem / 2;
                    ops = ops * 2;
                    continue;
                }
                return Err(CryptoError::AllocationFailed);
            },
            Err(Argon2Failure::Other) => return Err(CryptoError::InvalidKey),
        }
    }
}

/// Derives the key-encryption key from a password with Argon2id at the
/// profile's memory budget and passes (see `derive_key`).
pub fn derive_kek(password: &[u8], salt: &Salt16, profile: Argon2Profile) -> (r: Result<Key256, CryptoError>)
    ensures
        result_key(r) == spec_derive_kek(password@, salt@, profile),
{
    derive_key(password, salt, profile.mem_limit(), profile.ops_limit())
}

/// The personalization of the verification key: the ASCII bytes of
/// "verification".
pub open spec fn verification_personal() -> Seq<u8> {
    seq![118u8, 101u8, 114u8, 105u8, 102u8, 105u8, 99u8, 97u8, 116u8, 105u8, 111u8, 110u8]
}

/// Derives the key that proves knowledge of the key-encryption key: keyed
/// BLAKE2b-256 of the empty input.
pub fn derive_verification_key(kek: &Key256) -> (k: Key256)
    ensures
        k@ == spec_blake2b(32, kek@, verification_personal(), seq![]),
{
    let personal: [u8; 12] = [118u8, 101u8, 114u8, 105u8, 102u8, 105u8, 99u8, 97u8, 116u8, 105u8, 111u8, 110u8];
    let empty: [u8; 0] = [];
    proof {
        assert(personal@ =~= verification_personal());
        assert(empty@ =~= Seq::<u8>::empty());
    }
    let hash = blake2b(32, kek.as_bytes(), &personal, &empty);
    let bytes = array32_at(hash.as_slice(), 0);
    proof {
        assert(hash@.subrange(0, 32) =~= hash@);
    }
    Key256::new(bytes)
}

/// The personalization of a subkey: the context's first eight bytes, padded
/// with zeros to eight.
pub open spec fn subkey_personal(context: Seq<u8>) -> Seq<u8> {
    Seq::new(8, |i: int| if i < context.len() { context[i] } else { 0u8 })
}

/// The personalization of a subkey is the context followed by zero bytes up
/// to eight bytes, or the context's first eight bytes when it is longer.
pub proof fn lemma_subkey_personal_zero_padded(context: Seq<u8>)
    ensures
        subkey_personal(context).len() == 8,
        context.len() <= 8 ==> subkey_personal(context) == context + Seq::new((8 - context.len()) as nat, |i: int| 0u8),
        context.len() >= 8 ==> subkey_personal(context) == context.take(8),
        forall|i: int| context.len() <= i < 8 ==> #[trigger] subkey_personal(context)[i] == 0u8,
{
    if context.len() <= 8 {
        assert(subkey_personal(context) =~= context + Seq::new((8 - context.len()) as nat, |i: int| 0u8));
    } else {
        assert(subkey_personal(context) =~= context.take(8));
    }
}

/// Derives the subkey number `id` of a context from a master key: keyed
/// BLAKE2b-256 of the id's little-endian bytes, personalized with the
/// context's first eight bytes padded with zeros.
pub fn derive_subkey(master: &Key256, context: &str, id: u64) -> (k: Key256)
    ensures
        k@ == spec_blake2b(32, master@, subkey_personal(context.spec_bytes()), vstd::bytes::spec_u64_to_le_bytes(id)),
        context.spec_bytes().len() <= 8 ==> k@ == spec_blake2b(
            32,
            master@,
            context.spec_bytes() + Seq::new((8 - context.spec_bytes().len()) as nat, |i: int| 0u8),
            vstd::bytes::spec_u64_to_le_bytes(id),
        ),
{
    let context_bytes = context.as_bytes();
    let len = if context_bytes.len() < 8 { context_bytes.len() } else { 8 };
    let mut personal = [0u8; 8];
    let mut i: usize = 0;
    while i < len
        invariant
            len <= 8,
            len <= context_bytes@.len(),
            len == context_bytes@.len() || len == 8,
            i <= len,
            forall|j: int| 0 <= j < i ==> personal@[j] == context_bytes@[j],
            forall|j: int| i <= j < 8 ==> personal@[j] == 0u8,
        decreases len - i,
    {
        personal[i] = context_bytes[i];
        i = i + 1;
    }
    proof {
        assert(personal@ =~= subkey_personal(context.spec_bytes()));
        lemma_subkey_personal_zero_padded(context.spec_bytes());
    }
    let data = vstd::bytes::u64_to_le_bytes(id);
    let hash = blake2b(32, master.as_bytes(), &personal, data.as_slice());
    let bytes = array32_at(hash.as_slice(), 0);
    proof {
        assert(hash@.subrange(0, 32) =~= hash@);
    }
    Key256::new(bytes)
}

} // verus!
