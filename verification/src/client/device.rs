//! Devices, local collections and uploads named by the client itself.
use vstd::prelude::*;
use crate::client::error::CommandError;
use crate::sync::collections::Collection;
use crate::common::time::now_ms;

verus! {

/// The platforms a device may run on.
#[derive(Debug, Clone, Copy, PartialEq, Eq, Structural)]
pub enum DevicePlatform {
    Desktop,
}

/// A device registered with the server.
#[derive(Debug, Clone)]
pub struct DeviceInfo {
    pub device_id: String,
    pub name: String,
    pub platform: DevicePlatform,
    pub sse_token: String,
    pub push_token: Option<String>,
    pub stall_timeout_seconds: u32,
}

/// Seconds without news after which the server considers a device stalled.
pub const STALL_TIMEOUT_SECONDS: u32 = 90;

/// `uuid::Uuid::new_v4().to_string()`: a random identifier, written as the
/// crate's hyphenated lower-case form of 36 characters. Nothing else is
/// claimed of it.
#[verifier::external_body]
fn random_uuid_text() -> (id: String)
    ensures
        id@.len() == 36,
{
    uuid::Uuid::new_v4().to_string()
}

/// What `uuid::Uuid::parse_str` makes of `text`: the UUID as its 128-bit
/// value (`Uuid::as_u128`), or the message of its error.
pub uninterp spec fn spec_parse_uuid(text: Seq<char>) -> Result<u128, Seq<char>>;

/// `uuid::Uuid::parse_str`, the UUID taken as its 128-bit value
/// (`as_u128`); the error becomes its message.
#[verifier::external_body]
fn parse_uuid(text: &str) -> (r: Result<u128, String>)
    ensures
        match r {
            Ok(v) => spec_parse_uuid(text@) == Ok::<u128, Seq<char>>(v),
            Err(m) => spec_parse_uuid(text@) == Err::<u128, Seq<char>>(m@),
        },
{
    match uuid::Uuid::parse_str(text) {
        Ok(u) => Ok(u.as_u128()),
        Err(e) => Err(e.to_string()),
    }
}

/// A desktop device with the given identifier and name, no tokens yet, and
/// the standard stall timeout.
pub fn desktop_device(device_id: String, name: String) -> (d: DeviceInfo)
    ensures
        d.device_id == device_id,
        d.name == name,
        d.platform == DevicePlatform::Desktop,
        d.sse_token@ == Seq::<char>::empty(),
        d.push_token is None,
        d.stall_timeout_seconds == STALL_TIMEOUT_SECONDS,
{
    DeviceInfo {
        device_id,
        name,
        platform: DevicePlatform::Desktop,
        sse_token: String::new(),
        push_token: None,
        stall_timeout_seconds: STALL_TIMEOUT_SECONDS,
    }
}

/// A desktop device with a fresh random identifier (see `desktop_device`).
pub fn new_desktop_device(name: String) -> (d: DeviceInfo)
    ensures
        d.device_id@.len() == 36,
        d.name == name,
        d.platform == DevicePlatform::Desktop,
        d.sse_token@ == Seq::<char>::empty(),
        d.push_token is None,
        d.stall_timeout_seconds == STALL_TIMEOUT_SECONDS,
{
    desktop_device(random_uuid_text(), name)
}

/// A collection created on this device: a fresh random identifier, the
/// name, no key yet, both times the current time, not archived.
pub fn new_local_collection(name: String) -> (c: Collection)
    ensures
        c.id@.len() == 36,
        c.name == name,
        c.encrypted_key@ == Seq::<char>::empty(),
        c.key_nonce@ == Seq::<char>::empty(),
        c.archived_at is None,
{
    let id = random_uuid_text();
    Collection {
        id,
        name,
        encrypted_key: String::new(),
        key_nonce: String::new(),
        updation_time: now_ms(),
        created_at: now_ms(),
        archived_at: None,
    }
}

/// The upload named by `upload_id`, as the 128-bit value of its UUID, or
/// the `Validation` error "invalid upload_id: " followed by the parser's
/// message when it is no UUID.
pub fn parse_upload_id(upload_id: &str) -> (r: Result<u128, CommandError>)
    ensures
        match spec_parse_uuid(upload_id@) {
            Ok(v) => r == Ok::<u128, CommandError>(v),
            Err(cause) => r matches Err(CommandError::Validation(m)) && m@ == "invalid upload_id: "@ + cause,
        },
{
    match parse_uuid(upload_id) {
        Ok(id) => Ok(id),
        Err(cause) => {
            let mut m = String::from_str("invalid upload_id: ");
            m.append(cause.as_str());
            Err(CommandError::Validation(m))
        },
    }
}

} // verus!
