//! The parameters of a login: the salt and costs with which the
//! key-encryption key is derived from the password.
use vstd::prelude::*;
use crate::client::error::CommandError;
use crate::crypto::error::crypto_error_message;
use crate::crypto::kdf::{derive_key, spec_derive_key};
use crate::crypto::primitives::{base64_standard_decode, spec_base64_decode};
use crate::crypto::types::{Key256, Salt16};
use vstd::string::StringSliceAdditionalSpecFns;

verus! {

/// The key-derivation parameters that the server keeps for an account.
#[derive(Debug, Clone)]
pub struct LoginParams {
    pub kek_salt: String,
    pub mem_limit: u32,
    pub ops_limit: u32,
}

/// The credentials of a login.
#[derive(Debug, Clone)]
pub struct LoginRequest {
    pub email: String,
    pub password: String,
}

impl LoginParams {
    /// The parameters from the server's reply: a missing salt is empty, a
    /// missing cost is 0, and the costs are truncated to 32 bits.
    pub fn from_reply(kek_salt: Option<String>, mem_limit: Option<u64>, ops_limit: Option<u64>) -> (p: LoginParams)
        ensures
            p.kek_salt@ == (match kek_salt {
                Some(s) => s@,
                None => Seq::<char>::empty(),
            }),
            p.mem_limit == (match mem_limit {
                Some(m) => m as u32,
                None => 0u32,
            }),
            p.ops_limit == (match ops_limit {
                Some(o) => o as u32,
                None => 0u32,
            }),
    {
        LoginParams {
            kek_salt: match kek_salt {
                Some(s) => s,
                None => String::new(),
            },
            mem_limit: match mem_limit {
                Some(m) => #[verifier::truncate] (m as u32),
                None => 0,
            },
            ops_limit: match ops_limit {
                Some(o) => #[verifier::truncate] (o as u32),
                None => 0,
            },
        }
    }
}

/// Decodes the base64 salt of a login. An invalid text is a `Validation`
/// error "invalid salt: ..."; a salt that is not 16 bytes gives `None`: the
/// login cannot proceed with it.
pub fn decode_kek_salt(kek_salt: &str) -> (r: Option<Result<Salt16, CommandError>>)
    ensures
        match spec_base64_decode(kek_salt@) {
            Err(cause) => r matches Some(Err(CommandError::Validation(m))) && m@ == "invalid salt: "@ + cause,
            Ok(bytes) => if bytes.len() == 16 {
                r matches Some(Ok(s)) && s@ == bytes
            } else {
                r is None
            },
        },
{
    let bytes = match base64_standard_decode(kek_salt) {
        Ok(b) => b,
        Err(cause) => {
            let mut m = String::from_str("invalid salt: ");
            m.append(cause.as_str());
            return Some(Err(CommandError::Validation(m)));
        },
    };
    if bytes.len() != 16 {
        return None;
    }
    let mut salt = [0u8; 16];
    let mut i: usize = 0;
    while i < 16
        invariant
            bytes@.len() == 16,
            i <= 16,
            forall|j: int| 0 <= j < i ==> salt@[j] == bytes@[j],
        decreases 16 - i,
    {
        salt[i] = bytes[i];
        i = i + 1;
    }
    assert(salt@ =~= bytes@);
    Some(Ok(Salt16::new(salt)))
}

/// The address where the login parameters of an account are asked for.
pub fn auth_params_url(server_url: &str) -> (url: String)
    ensures
        url@ == server_url@ + "/api/auth/params"@,
{
    let mut url = String::from_str(server_url);
    url.append("/api/auth/params");
    url
}

/// The address of the login request.
pub fn login_url(server_url: &str) -> (url: String)
    ensures
        url@ == server_url@ + "/api/auth/login"@,
{
    let mut url = String::from_str(server_url);
    url.append("/api/auth/login");
    url
}

/// `r` is what deriving the login key gives when the key derivation gives
/// `derived`: the key, or the derivation's error as a `CryptoError`.
pub open spec fn login_key_outcome(derived: Result<Seq<u8>, crate::crypto::error::CryptoError>, r: Result<Key256, CommandError>) -> bool {
    match derived {
        Ok(k) => r matches Ok(key) && key@ == k,
        Err(e) => r matches Err(CommandError::CryptoError(m)) && m@ == crypto_error_message(e),
    }
}

/// The key-encryption key of a login: the salt of the parameters decoded,
/// then the password hashed with Argon2id at the parameters' memory budget
/// and passes. An invalid salt text is a `Validation` error; a salt that is
/// not 16 bytes gives `None`: the login cannot proceed with it.
pub fn derive_login_key(params: &LoginParams, password: &str) -> (r: Option<Result<Key256, CommandError>>)
    ensures
        match spec_base64_decode(params.kek_salt@) {
            Err(cause) => r matches Some(Err(CommandError::Validation(m))) && m@ == "invalid salt: "@ + cause,
            Ok(bytes) => if bytes.len() == 16 {
                r matches Some(res) && login_key_outcome(
                    spec_derive_key(password.spec_bytes(), bytes, params.mem_limit, params.ops_limit),
                    res,
                )
            } else {
                r is None
            },
        },
{
    let salt = match decode_kek_salt(params.kek_salt.as_str()) {
        Some(Ok(s)) => s,
        Some(Err(e)) => return Some(Err(e)),
        None => return None,
    };
    match derive_key(password.as_bytes(), &salt, params.mem_limit, params.ops_limit) {
        Ok(k) => Some(Ok(k)),
        Err(e) => Some(Err(CommandError::from(e))),
    }
}

/// The session token of a login reply, or the `Validation` error
/// "missing session_token" when the reply holds none.
pub fn session_token_from_reply(token: Option<String>) -> (r: Result<String, CommandError>)
    ensures
        match token {
            Some(t) => r == Ok::<String, CommandError>(t),
            None => r matches Err(CommandError::Validation(m)) && m@ == "missing session_token"@,
        },
{
    match token {
        Some(t) => Ok(t),
        None => Err(CommandError::Validation(String::from_str("missing session_token"))),
    }
}

} // verus!
