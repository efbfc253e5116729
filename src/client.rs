use vstd::prelude::*;
use vstd::string::StringExecFns;
use vstd::utf8::encode_utf8;

use crate::crypto::{
    base64_standard, hmac_sha256, join_with_colon, open_bundle, open_bundle_spec, signature_spec,
    strs_view, totp_code, totp_spec, lemma_base64_len, hmac_sha256_of, join_colon,
};
use crate::dtos::{accept, register, update};
use crate::dtos::update::entries_view;
use crate::error::{ClientError, CryptoFault, InputFault};
use crate::retry::RetryState;
use crate::ticket::Ticket;
use crate::uri::{opt_view, provisioning_spec, ProvisioningUri};

verus! {

/// An instant as seconds and nanoseconds since the Unix epoch, in UTC.
#[derive(Debug, Clone, Copy, PartialEq, Eq, Structural)]
pub struct UtcTime {
    pub secs: i64,
    pub nanos: u32,
}

/// The RFC 3339 text of an instant, with as many fractional digits as it
/// needs and `Z` for UTC; `None` when the instant is out of chrono's range.
pub uninterp spec fn rfc3339_auto_si_of(secs: i64, nanos: u32) -> Option<Seq<char>>;

/// Relies on chrono::DateTime::from_timestamp and
/// DateTime::to_rfc3339_opts(SecondsFormat::AutoSi, true).
#[verifier::external_body]
fn rfc3339_auto_si(secs: i64, nanos: u32) -> (r: Option<String>)
    ensures
        opt_view(r) == rfc3339_auto_si_of(secs, nanos),
{
    chrono::DateTime::from_timestamp(secs, nanos).map(
        |d| d.to_rfc3339_opts(chrono::SecondsFormat::AutoSi, true),
    )
}

#[verifier::external_type_specification]
#[verifier::external_body]
pub struct ExSystemTime(std::time::SystemTime);

/// Relies on std::time::SystemTime::now: the current wall-clock time.
#[verifier::external_body]
fn system_now() -> (r: std::time::SystemTime) {
    std::time::SystemTime::now()
}

/// Relies on SystemTime::duration_since(UNIX_EPOCH): the time since the
/// epoch as whole seconds and the nanoseconds below one second, `None`
/// for a time before the epoch.
#[verifier::external_body]
fn since_epoch(t: std::time::SystemTime) -> (r: Option<(u64, u32)>)
    ensures
        r matches Some(d) ==> d.1 < 1_000_000_000,
{
    t.duration_since(std::time::UNIX_EPOCH).ok().map(|d| (d.as_secs(), d.subsec_nanos()))
}

/// The current instant, or `None` when the clock reads before the Unix
/// epoch or beyond what `i64` seconds can hold.
pub fn utc_now() -> (r: Option<UtcTime>)
    ensures
        r matches Some(t) ==> t.secs >= 0 && t.nanos < 1_000_000_000,
{
    match since_epoch(system_now()) {
        None => None,
        Some((secs, nanos)) => if secs <= i64::MAX as u64 {
            Some(UtcTime { secs: secs as i64, nanos })
        } else {
            None
        },
    }
}

/// A request to send: the full URL and the body to serialise as JSON.
#[derive(Debug, Clone, PartialEq, Eq)]
pub struct Post<B> {
    pub url: String,
    pub body: B,
}

/// The URL of endpoint `name` under the server base `root`.
pub open spec fn endpoint_spec(root: Seq<char>, name: Seq<char>) -> Seq<char> {
    root + seq!['/'] + name
}

/// The session identifiers, in order, of the entries whose token is `token`.
pub open spec fn sessions_for(entries: Seq<(Seq<char>, Seq<char>)>, token: Seq<char>) -> Seq<Seq<char>>
    decreases entries.len(),
{
    if entries.len() == 0 {
        Seq::empty()
    } else {
        let prev = sessions_for(entries.drop_last(), token);
        if entries.last().0 == token {
            prev.push(entries.last().1)
        } else {
            prev
        }
    }
}

pub open spec fn strings_view(v: Seq<String>) -> Seq<Seq<char>> {
    v.map_values(|s: String| s@)
}

/// The message that a classified failure carries: the server's JSON
/// `message` if there is one, else the body text, else nothing.
pub open spec fn error_message_spec(body: Option<String>, json_message: Option<String>) -> Option<Seq<char>> {
    match body {
        None => None,
        Some(text) => match json_message {
            Some(m) => Some(m@),
            None => Some(text@),
        },
    }
}

/// The approval body for `ticket` and `session_id` with code `code` and
/// timestamp `time`.
pub open spec fn accept_body_spec(
    b: accept::Request,
    ticket: Ticket,
    session_id: Seq<char>,
    code: Seq<char>,
    time: Seq<char>,
) -> bool {
    &&& b.accepted
    &&& b.device_time@ == time
    &&& b.mobile_local_time@ == time
    &&& b.hmac@ == signature_spec(ticket.auth_key@, seq![ticket.token_id@, session_id, "true"@, code])
    &&& b.jassessionid@ == Seq::<char>::empty()
    &&& b.language@ == "en"@
    &&& b.mobile_os@ == "ios"@
    &&& b.mobile_version@ == "1.3.1.124"@
    &&& b.session_id@ == session_id
    &&& b.token_uid@ == ticket.token_id@
    &&& b.valueotp@ == code
}

/// What approving `session_id` for `ticket` at instant `now` gives: the
/// one-time code at `now`, the signature over token, session, `true` and
/// code, and `now` as both the device and the local time.
pub open spec fn accept_outcome(
    ticket: Ticket,
    session_id: Seq<char>,
    now: UtcTime,
    r: Result<Post<accept::Request>, ClientError>,
) -> bool {
    if session_id.len() == 0 {
        r == Err::<Post<accept::Request>, ClientError>(
            ClientError::InputFormat(InputFault::EmptySessionId),
        )
    } else if now.secs < 0 {
        r == Err::<Post<accept::Request>, ClientError>(ClientError::Crypto(CryptoFault::Totp))
    } else {
        match totp_spec(ticket.totp_uri@, now.secs as u64) {
            None => r == Err::<Post<accept::Request>, ClientError>(
                ClientError::Crypto(CryptoFault::Totp),
            ),
            Some(code) => match rfc3339_auto_si_of(now.secs, now.nanos) {
                None => r == Err::<Post<accept::Request>, ClientError>(
                    ClientError::InputFormat(InputFault::InvalidTime),
                ),
                Some(time) => r matches Ok(post) && post.url@ == endpoint_spec(
                    ticket.server_root_uri@,
                    "acceptToken"@,
                ) && accept_body_spec(post.body, ticket, session_id, code, time),
            },
        }
    }
}

/// Builds the URL of endpoint `name` under the server base `root`.
pub fn endpoint(root: &str, name: &str) -> (r: String)
    ensures
        r@ == endpoint_spec(root@, name@),
{
    let mut url = String::from_str(root);
    url.append("/");
    proof { reveal_strlit("/"); }
    url.append(name);
    url
}

/// Whether an HTTP status is a success (2xx).
pub fn is_success(status: u16) -> (r: bool)
    ensures
        r == (200 <= status <= 299),
{
    200 <= status && status <= 299
}

/// The protocol client: the retry bound and the steps of the three calls.
#[derive(Debug, Clone, Copy, PartialEq, Eq, Structural)]
pub struct Client {
    retries: u8,
}

impl Client {
    /// A client allows at least one attempt per request.
    pub closed spec fn wf(&self) -> bool {
        self.retries >= 1
    }

    /// The number of attempts allowed for each request.
    pub closed spec fn max_attempts(&self) -> nat {
        self.retries as nat
    }

    /// A client allowing `retries` attempts per request, 3 when none is given;
    /// a bound of zero attempts is refused.
    pub fn new(retries: Option<u8>) -> (r: Result<Client, ClientError>)
        ensures
            retries matches Some(n) && n == 0 ==> r == Err::<Client, ClientError>(
                ClientError::InputFormat(InputFault::ZeroRetries),
            ),
            retries is None ==> (r matches Ok(c) && c.wf() && c.max_attempts() == 3),
            retries matches Some(n) && n > 0 ==> (r matches Ok(c) && c.wf() && c.max_attempts() == retries.unwrap()),
    {
        match retries {
            None => Ok(Client { retries: 3 }),
            Some(n) => if n == 0 {
                Err(ClientError::InputFormat(InputFault::ZeroRetries))
            } else {
                Ok(Client { retries: n })
            },
        }
    }

    /// Fresh retry bookkeeping for one request.
    pub fn retry_state(&self) -> (r: RetryState)
        requires
            self.wf(),
        ensures
            r.wf(),
            r.max_attempts as nat == self.max_attempts(),
            r.attempts == 0,
    {
        RetryState::new(self.retries)
    }

    /// Base64-encoded HMAC-SHA256 of `values` joined with `:`, keyed by `key`.
    pub fn get_hmac(key: &str, values: &[&str]) -> (r: String)
        ensures
            r@ == signature_spec(key@, strs_view(values@)),
            hmac_sha256_of(encode_utf8(key@), encode_utf8(join_colon(strs_view(values@)))).len() == 32,
            r@.len() == 44,
    {
        let message = join_with_colon(values);
        let mac = hmac_sha256(key.as_bytes(), message.as_str().as_bytes());
        proof { lemma_base64_len(mac@); }
        base64_standard(mac.as_slice())
    }

    /// Classifies a response outside 2xx for the request to `path`. `body`
    /// is the response text if it could be read, and `json_message` the
    /// `message` field of that text if it is a JSON object with one.
    pub fn get_error(path: &str, status: u16, body: Option<String>, json_message: Option<String>) -> (r:
        ClientError)
        ensures
            r matches ClientError::Protocol { path: p, status: s, message: m } && p@ == path@
                && s == status && opt_view(m) == error_message_spec(body, json_message),
    {
        let message = match body {
            None => None,
            Some(text) => match json_message {
                Some(m) => Some(m),
                None => Some(text),
            },
        };
        ClientError::Protocol { path: String::from_str(path), status, message }
    }

    /// Parses a provisioning URI and builds its `/register` call; a malformed
    /// URI fails before any request exists.
    pub fn register_start(&self, uri: &str) -> (r: Result<
        (ProvisioningUri, Post<register::Request>),
        ClientError,
    >)
        ensures
            r matches Ok((p, post)) ==> provisioning_spec(uri@) == Ok::<
                (Seq<char>, Seq<char>, Seq<char>, u8),
                InputFault,
            >(p.view()) && post.url@ == endpoint_spec(p.address@, "register"@)
                && post.body.req_id@ == p.request_id@ && post.body.language@ == "en"@,
            r matches Err(e) ==> exists|f: InputFault|
                provisioning_spec(uri@) == Err::<(Seq<char>, Seq<char>, Seq<char>, u8), InputFault>(f)
                    && e == ClientError::InputFormat(f),
    {
        match ProvisioningUri::parse(uri) {
            Ok(p) => {
                let post = self.register_call(&p);
                Ok((p, post))
            },
            Err(f) => Err(ClientError::InputFormat(f)),
        }
    }

    /// The `/register` call for a parsed provisioning URI.
    pub fn register_call(&self, uri: &ProvisioningUri) -> (r: Post<register::Request>)
        ensures
            r.url@ == endpoint_spec(uri.address@, "register"@),
            r.body.req_id@ == uri.request_id@,
            r.body.language@ == "en"@,
    {
        Post {
            url: endpoint(uri.address.as_str(), "register"),
            body: register::Request { req_id: uri.request_id.clone(), language: String::from_str("en") },
        }
    }

    /// Decrypts the `mobileauth` bundle of a `/register` response with the
    /// provisioning key, both taken as their raw UTF-8 bytes.
    pub fn decrypt_register_response(response: &register::Response, key: &str) -> (r: Result<
        Vec<u8>,
        ClientError,
    >)
        ensures
            r matches Ok(p) ==> open_bundle_spec(encode_utf8(response.mobileauth@), encode_utf8(key@))
                == Ok::<Seq<u8>, CryptoFault>(p@),
            r matches Err(e) ==> exists|f: CryptoFault|
                open_bundle_spec(encode_utf8(response.mobileauth@), encode_utf8(key@)) == Err::<
                    Seq<u8>,
                    CryptoFault,
                >(f) && e == ClientError::Crypto(f),
    {
        match open_bundle(response.mobileauth.as_str().as_bytes(), key.as_bytes()) {
            Ok(p) => Ok(p),
            Err(f) => Err(ClientError::Crypto(f)),
        }
    }

    /// The ticket that a completed registration yields; every text field of
    /// a ticket must be non-empty, else registration fails.
    pub fn ticket_from_registration(uri: ProvisioningUri, secrets: register::ResponseDecrypted) -> (r:
        Result<Ticket, ClientError>)
        ensures
            r matches Ok(t) ==> t.usable() && t.request_id@ == uri.request_id@
                && t.server_root_uri@ == uri.address@ && t.pin_length == uri.pin_length
                && t.auth_key@ == secrets.authkey@ && t.totp_uri@ == secrets.otp@
                && t.token_id@ == secrets.token_uid@,
            r is Err ==> r == Err::<Ticket, ClientError>(
                ClientError::InputFormat(InputFault::IncompleteTicket),
            ),
            r is Ok <==> (uri.request_id@.len() > 0 && uri.address@.len() > 0
                && secrets.authkey@.len() > 0 && secrets.otp@.len() > 0
                && secrets.token_uid@.len() > 0),
    {
        let ticket = Ticket {
            request_id: uri.request_id,
            server_root_uri: uri.address,
            pin_length: uri.pin_length,
            auth_key: secrets.authkey,
            totp_uri: secrets.otp,
            token_id: secrets.token_uid,
        };
        if ticket.is_usable() {
            Ok(ticket)
        } else {
            Err(ClientError::InputFormat(InputFault::IncompleteTicket))
        }
    }

    /// The `/updateTokens` call that polls for the ticket's pending sessions.
    pub fn update_call(&self, ticket: &Ticket) -> (r: Post<update::Request>)
        ensures
            r.url@ == endpoint_spec(ticket.server_root_uri@, "updateTokens"@),
            strings_view(r.body.available_tokens@) == seq![ticket.token_id@],
    {
        let tokens: Vec<String> = vec![ticket.token_id.clone()];
        assert(strings_view(tokens@) =~= seq![ticket.token_id@]);
        Post {
            url: endpoint(ticket.server_root_uri.as_str(), "updateTokens"),
            body: update::Request { available_tokens: tokens },
        }
    }

    /// The pending sessions of an `/updateTokens` response that belong to the
    /// ticket's token, in the order the server gave them.
    pub fn update(&self, ticket: &Ticket, response: &update::Response) -> (r: Vec<String>)
        ensures
            strings_view(r@) == sessions_for(
                entries_view(response.available_tokens@),
                ticket.token_id@,
            ),
    {
        let entries = &response.available_tokens;
        let ghost all = entries_view(entries@);
        let mut out: Vec<String> = Vec::new();
        let mut k: usize = 0;
        while k < entries.len()
            invariant
                k <= entries@.len(),
                all == entries_view(entries@),
                strings_view(out@) == sessions_for(all.take(k as int), ticket.token_id@),
            decreases entries@.len() - k,
        {
            let ghost before = all.take(k as int);
            let ghost after = all.take(k + 1);
            assert(after.drop_last() =~= before);
            assert(after.last() == (entries@[k as int].token_uid@, entries@[k as int].session_id@));
            if entries[k].token_uid == ticket.token_id {
                out.push(entries[k].session_id.clone());
                assert(strings_view(out@) =~= sessions_for(before, ticket.token_id@).push(
                    entries@[k as int].session_id@,
                ));
            }
            k = k + 1;
        }
        assert(all.take(entries@.len() as int) =~= all);
        out
    }

    /// The `/acceptToken` call approving `session_id` for `ticket` at time
    /// `now`: the one-time code at `now`, the HMAC signature over token,
    /// session, `true` and code, and `now` as the device and local time.
    pub fn accept_call_at(&self, ticket: &Ticket, session_id: &str, now: UtcTime) -> (r: Result<
        Post<accept::Request>,
        ClientError,
    >)
        ensures
            accept_outcome(*ticket, session_id@, now, r),
    {
        if session_id.is_empty() {
            return Err(ClientError::InputFormat(InputFault::EmptySessionId));
        }
        if now.secs < 0 {
            return Err(ClientError::Crypto(CryptoFault::Totp));
        }
        let code = match totp_code(ticket.totp_uri.as_str(), now.secs as u64) {
            Ok(c) => c,
            Err(f) => return Err(ClientError::Crypto(f)),
        };
        let parts: Vec<&str> = vec![ticket.token_id.as_str(), session_id, "true", code.as_str()];
        assert(strs_view(parts@) =~= seq![ticket.token_id@, session_id@, "true"@, code@]);
        let hmac = Client::get_hmac(ticket.auth_key.as_str(), parts.as_slice());
        let device_time = match rfc3339_auto_si(now.secs, now.nanos) {
            Some(t) => t,
            None => return Err(ClientError::InputFormat(InputFault::InvalidTime)),
        };
        let mobile_local_time = device_time.clone();
        let body = accept::Request {
            accepted: true,
            device_time,
            hmac,
            jassessionid: String::new(),
            language: String::from_str("en"),
            mobile_local_time,
            mobile_os: String::from_str("ios"),
            mobile_version: String::from_str("1.3.1.124"),
            session_id: String::from_str(session_id),
            token_uid: ticket.token_id.clone(),
            valueotp: code,
        };
        Ok(Post { url: endpoint(ticket.server_root_uri.as_str(), "acceptToken"), body })
    }

    /// The `/acceptToken` call for `session_id`, at the current time: what
    /// `accept_call_at` gives for the instant read from the clock. A clock
    /// that reads before the Unix epoch yields no one-time code.
    pub fn accept_call(&self, ticket: &Ticket, session_id: &str) -> (r: Result<
        Post<accept::Request>,
        ClientError,
    >)
        ensures
            session_id@.len() == 0 ==> r == Err::<Post<accept::Request>, ClientError>(
                ClientError::InputFormat(InputFault::EmptySessionId),
            ),
            r matches Err(ClientError::InputFormat(InputFault::EmptySessionId)) ==> session_id@.len()
                == 0,
            r == Err::<Post<accept::Request>, ClientError>(ClientError::Crypto(CryptoFault::Totp))
                || exists|now: UtcTime|
                now.secs >= 0 && now.nanos < 1_000_000_000 && #[trigger] accept_outcome(
                    *ticket,
                    session_id@,
                    now,
                    r,
                ),
    {
        if session_id.is_empty() {
            let r = Err(ClientError::InputFormat(InputFault::EmptySessionId));
            assert(accept_outcome(*ticket, session_id@, UtcTime { secs: 0, nanos: 0 }, r));
            return r;
        }
        match utc_now() {
            None => Err(ClientError::Crypto(CryptoFault::Totp)),
            Some(now) => {
                let r = self.accept_call_at(ticket, session_id, now);
                assert(accept_outcome(*ticket, session_id@, now, r));
                r
            },
        }
    }
}

/// When no pending entry carries the ticket's token (in particular when the
/// server lists no entry at all), polling yields no session and no error.
pub proof fn lemma_no_pending_sessions(entries: Seq<(Seq<char>, Seq<char>)>, token: Seq<char>)
    requires
        forall|i: int| 0 <= i < entries.len() ==> #[trigger] entries[i].0 != token,
    ensures
        sessions_for(entries, token) == Seq::<Seq<char>>::empty(),
    decreases entries.len(),
{
    if entries.len() > 0 {
        let prev = entries.drop_last();
        assert forall|i: int| 0 <= i < prev.len() implies #[trigger] prev[i].0 != token by {
            assert(prev[i] == entries[i]);
        }
        lemma_no_pending_sessions(prev, token);
        assert(entries.last() == entries[entries.len() - 1]);
    }
}

/// Each of `sessions` is the session of an entry whose token is `token`.
pub open spec fn from_own_entries(
    entries: Seq<(Seq<char>, Seq<char>)>,
    token: Seq<char>,
    sessions: Seq<Seq<char>>,
) -> bool {
    forall|j: int|
        0 <= j < sessions.len() ==> #[trigger] own_entry_exists(entries, token, sessions[j])
}

/// Some entry has token `token` and session `session`.
pub open spec fn own_entry_exists(
    entries: Seq<(Seq<char>, Seq<char>)>,
    token: Seq<char>,
    session: Seq<char>,
) -> bool {
    exists|i: int| 0 <= i < entries.len() && #[trigger] entries[i] == (token, session)
}

/// Every session that polling yields comes from an entry whose token is
/// the ticket's token; entries of other tokens never show up.
pub proof fn lemma_only_own_sessions(entries: Seq<(Seq<char>, Seq<char>)>, token: Seq<char>)
    ensures
        from_own_entries(entries, token, sessions_for(entries, token)),
    decreases entries.len(),
{
    if entries.len() > 0 {
        let prev = entries.drop_last();
        lemma_only_own_sessions(prev, token);
        let res = sessions_for(entries, token);
        let before = sessions_for(prev, token);
        assert forall|j: int| 0 <= j < res.len() implies #[trigger] own_entry_exists(
            entries,
            token,
            res[j],
        ) by {
            if entries.last().0 == token {
                assert(res == before.push(entries.last().1));
            } else {
                assert(res == before);
            }
            if j < before.len() {
                assert(res[j] == before[j]);
                assert(own_entry_exists(prev, token, before[j]));
                let i = choose|i: int| 0 <= i < prev.len() && #[trigger] prev[i] == (token, before[j]);
                assert(entries[i] == prev[i]);
            } else {
                let i = entries.len() - 1;
                assert(entries[i] == entries.last());
                assert(entries.last().0 == token);
                assert(res[j] == entries.last().1);
            }
        }
        assert(from_own_entries(entries, token, res));
    }
}

/// Two approvals signed with the same key, token identifier, session
/// identifier and one-time code carry the same signature (the accepted flag
/// is always `true`), whatever their timestamps.
pub proof fn lemma_signature_deterministic(
    b1: accept::Request,
    b2: accept::Request,
    t1: Ticket,
    t2: Ticket,
    session_id: Seq<char>,
    code: Seq<char>,
    time1: Seq<char>,
    time2: Seq<char>,
)
    requires
        accept_body_spec(b1, t1, session_id, code, time1),
        accept_body_spec(b2, t2, session_id, code, time2),
        t1.auth_key@ == t2.auth_key@,
        t1.token_id@ == t2.token_id@,
    ensures
        b1.hmac@ == b2.hmac@,
        b1.accepted == b2.accepted,
{
}

} // verus!
