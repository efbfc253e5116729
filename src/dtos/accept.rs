use vstd::prelude::*;

verus! {

/// Body of `POST /acceptToken`.
#[derive(Debug, Clone, PartialEq, Eq)]
pub struct Request {
    pub accepted: bool,
    pub device_time: String,
    pub hmac: String,
    pub jassessionid: String,
    pub language: String,
    pub mobile_local_time: String,
    pub mobile_os: String,
    pub mobile_version: String,
    pub session_id: String,
    pub token_uid: String,
    pub valueotp: String,
}

/// Body of a successful `/acceptToken` response: an empty object.
#[derive(Debug, Clone, Copy, PartialEq, Eq, Structural)]
pub struct Response {}

} // verus!
