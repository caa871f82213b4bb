//! Fixed-size key material and the parameter profiles of the password hash.
use vstd::prelude::*;

verus! {

/// A 256-bit symmetric key.
pub struct Key256 {
    bytes: [u8; 32],
}

impl View for Key256 {
    type V = Seq<u8>;

    open spec fn view(&self) -> Seq<u8> {
        self.spec_bytes()
    }
}

impl Key256 {
    /// The key's bytes.
    pub closed spec fn spec_bytes(&self) -> Seq<u8> {
        self.bytes@
    }

    /// Wraps 32 bytes as a key.
    pub fn new(bytes: [u8; 32]) -> (k: Key256)
        ensures
            k@ == bytes@,
    {
        Key256 { bytes }
    }

    /// The key's bytes.
    pub fn as_bytes(&self) -> (b: &[u8; 32])
        ensures
            b@ == self@,
    {
        &self.bytes
    }

    /// Every key is 32 bytes long.
    pub proof fn lemma_len(&self)
        ensures
            self@.len() == 32,
    {
    }
}

/// A 192-bit nonce for the secretbox construction.
pub struct Nonce24 {
    bytes: [u8; 24],
}

impl View for Nonce24 {
    type V = Seq<u8>;

    open spec fn view(&self) -> Seq<u8> {
        self.spec_bytes()
    }
}

impl Nonce24 {
    /// The nonce's bytes.
    pub closed spec fn spec_bytes(&self) -> Seq<u8> {
        self.bytes@
    }

    /// Wraps 24 bytes as a nonce.
    pub fn new(bytes: [u8; 24]) -> (n: Nonce24)
        ensures
            n@ == bytes@,
    {
        Nonce24 { bytes }
    }

    /// The nonce's bytes.
    pub fn as_bytes(&self) -> (b: &[u8; 24])
        ensures
            b@ == self@,
    {
        &self.bytes
    }

    /// Every nonce is 24 bytes long.
    pub proof fn lemma_len(&self)
        ensures
            self@.len() == 24,
    {
    }
}

/// A 192-bit header (nonce) of the stream construction.
pub struct Header24 {
    bytes: [u8; 24],
}

impl View for Header24 {
    type V = Seq<u8>;

    open spec fn view(&self) -> Seq<u8> {
        self.spec_bytes()
    }
}

impl Header24 {
    /// The header's bytes.
    pub closed spec fn spec_bytes(&self) -> Seq<u8> {
        self.bytes@
    }

    /// Wraps 24 bytes as a header.
    pub fn new(bytes: [u8; 24]) -> (h: Header24)
        ensures
            h@ == bytes@,
    {
        Header24 { bytes }
    }

    /// The header's bytes.
    pub fn as_bytes(&self) -> (b: &[u8; 24])
        ensures
            b@ == self@,
    {
        &self.bytes
    }

    /// Every header is 24 bytes long.
    pub proof fn lemma_len(&self)
        ensures
            self@.len() == 24,
    {
    }
}

/// A 128-bit salt for the password hash.
pub struct Salt16 {
    bytes: [u8; 16],
}

impl View for Salt16 {
    type V = Seq<u8>;

    open spec fn view(&self) -> Seq<u8> {
        self.spec_bytes()
    }
}

impl Salt16 {
    /// The salt's bytes.
    pub closed spec fn spec_bytes(&self) -> Seq<u8> {
        self.bytes@
    }

    /// Wraps 16 bytes as a salt.
    pub fn new(bytes: [u8; 16]) -> (s: Salt16)
        ensures
            s@ == bytes@,
    {
        Salt16 { bytes }
    }

    /// The salt's bytes.
    pub fn as_bytes(&self) -> (b: &[u8; 16])
        ensures
            b@ == self@,
    {
        &self.bytes
    }

    /// Every salt is 16 bytes long.
    pub proof fn lemma_len(&self)
        ensures
            self@.len() == 16,
    {
    }
}

/// A key encrypted under a wrapping key with the secretbox construction.
pub struct EncryptedKey {
    pub nonce: Nonce24,
    pub ciphertext: Vec<u8>,
}

/// Cost profile of the password hash: how much memory and how many passes.
#[derive(Clone, Copy, Debug, PartialEq, Eq, Structural)]
pub enum Argon2Profile {
    Interactive,
    Moderate,
    Sensitive,
}

/// Memory budget in bytes of each profile.
pub open spec fn spec_mem_limit(p: Argon2Profile) -> u32 {
    match p {
        Argon2Profile::Interactive => 67108864u32,
        Argon2Profile::Moderate => 268435456u32,
        Argon2Profile::Sensitive => 1073741824u32,
    }
}

/// Number of passes of each profile.
pub open spec fn spec_ops_limit(p: Argon2Profile) -> u32 {
    match p {
        Argon2Profile::Interactive => 2u32,
        Argon2Profile::Moderate => 3u32,
        Argon2Profile::Sensitive => 4u32,
    }
}

impl Argon2Profile {
    /// Memory budget in bytes.
    pub fn mem_limit(&self) -> (m: u32)
        ensures
            m == spec_mem_limit(*self),
    {
        match self {
            Argon2Profile::Interactive => 67108864u32,
            Argon2Profile::Moderate => 268435456u32,
            Argon2Profile::Sensitive => 1073741824u32,
        }
    }

    /// Number of passes.
    pub fn ops_limit(&self) -> (o: u32)
        ensures
            o == spec_ops_limit(*self),
    {
        match self {
            Argon2Profile::Interactive => 2u32,
            Argon2Profile::Moderate => 3u32,
            Argon2Profile::Sensitive => 4u32,
        }
    }
}

/// An X25519 secret key.
pub struct SecretKey {
    bytes: [u8; 32],
}

impl View for SecretKey {
    type V = Seq<u8>;

    open spec fn view(&self) -> Seq<u8> {
        self.spec_bytes()
    }
}

impl SecretKey {
    /// The key's bytes.
    pub closed spec fn spec_bytes(&self) -> Seq<u8> {
        self.bytes@
    }

    /// Wraps 32 bytes as a secret key.
    pub fn from_bytes(bytes: [u8; 32]) -> (k: SecretKey)
        ensures
            k@ == bytes@,
    {
        SecretKey { bytes }
    }

    /// The key's bytes.
    pub fn to_bytes(&self) -> (b: [u8; 32])
        ensures
            b@ == self@,
    {
        self.bytes
    }
    /// Every key is 32 bytes long.
    pub proof fn lemma_len(&self)
        ensures
            self@.len() == 32,
    {
    }
}

/// An X25519 public key.
pub struct PublicKey {
    bytes: [u8; 32],
}

impl View for PublicKey {
    type V = Seq<u8>;

    open spec fn view(&self) -> Seq<u8> {
        self.spec_bytes()
    }
}

impl PublicKey {
    /// The key's bytes.
    pub closed spec fn spec_bytes(&self) -> Seq<u8> {
        self.bytes@
    }

    /// Wraps 32 bytes as a public key.
    pub fn from_bytes(bytes: [u8; 32]) -> (k: PublicKey)
        ensures
            k@ == bytes@,
    {
        PublicKey { bytes }
    }

    /// The key's bytes.
    pub fn to_bytes(&self) -> (b: [u8; 32])
        ensures
            b@ == self@,
    {
        self.bytes
    }
    /// Every key is 32 bytes long.
    pub proof fn lemma_len(&self)
        ensures
            self@.len() == 32,
    {
    }
}

} // verus!
