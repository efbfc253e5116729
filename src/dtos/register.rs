use vstd::prelude::*;

verus! {

/// Body of `POST /register`: `{reqID, language}`.
#[derive(Debug, Clone, PartialEq, Eq)]
pub struct Request {
    pub req_id: String,
    pub language: String,
}

/// Body of a successful `/register` response: `{mobileauth}`.
#[derive(Debug, Clone, PartialEq, Eq)]
pub struct Response {
    pub mobileauth: String,
}

/// The decrypted enrollment bundle: `{authkey, otp, tokenUID}`.
#[derive(Debug, Clone, PartialEq, Eq)]
pub struct ResponseDecrypted {
    pub authkey: String,
    pub otp: String,
    pub token_uid: String,
}

} // verus!
