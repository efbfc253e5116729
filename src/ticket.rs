use vstd::prelude::*;

verus! {

/// The secrets of one enrolled factor, produced by registration and
/// reused unchanged by every later poll and approval.
#[derive(Debug, Clone, PartialEq, Eq)]
pub struct Ticket {
    pub request_id: String,
    pub server_root_uri: String,
    pub pin_length: u8,
    pub auth_key: String,
    pub totp_uri: String,
    pub token_id: String,
}

impl Ticket {
    /// A ticket can be used only when none of its text fields is empty.
    pub open spec fn usable(&self) -> bool {
        &&& self.request_id@.len() > 0
        &&& self.server_root_uri@.len() > 0
        &&& self.auth_key@.len() > 0
        &&& self.totp_uri@.len() > 0
        &&& self.token_id@.len() > 0
    }

    /// Whether every text field of the ticket is present and non-empty.
    pub fn is_usable(&self) -> (r: bool)
        ensures
            r == self.usable(),
    {
        !self.request_id.as_str().is_empty() && !self.server_root_uri.as_str().is_empty()
            && !self.auth_key.as_str().is_empty() && !self.totp_uri.as_str().is_empty()
            && !self.token_id.as_str().is_empty()
    }
}

} // verus!
