use vstd::prelude::*;

verus! {

/// Body of `POST /updateTokens`: `{availableTokens: [tokenUID]}`.
#[derive(Debug, Clone, PartialEq, Eq)]
pub struct Request {
    pub available_tokens: Vec<String>,
}

/// One pending session in an `/updateTokens` response.
#[derive(Debug, Clone, PartialEq, Eq)]
pub struct ResponseAvailableTokens {
    pub token_uid: String,
    pub session_id: String,
}

/// Body of a successful `/updateTokens` response.
#[derive(Debug, Clone, PartialEq, Eq)]
pub struct Response {
    pub available_tokens: Vec<ResponseAvailableTokens>,
}

/// The pending sessions of a response as (token identifier, session identifier) pairs.
pub open spec fn entries_view(entries: Seq<ResponseAvailableTokens>) -> Seq<(Seq<char>, Seq<char>)> {
    entries.map_values(|e: ResponseAvailableTokens| (e.token_uid@, e.session_id@))
}

} // verus!
