use vstd::prelude::*;
use vstd::string::{StrSliceExecFns, StringExecFns};

use crate::error::InputFault;

verus! {

/// What `url::Url::parse` makes of `s`, seen through its scheme, host and
/// query; `None` when `s` is not a URL.
pub uninterp spec fn url_parts_of(s: Seq<char>) -> Option<(Seq<char>, Option<Seq<char>>, Option<Seq<char>>)>;

/// The key/value fields that `serde_qs` decodes from the query string `q`, in
/// key order; `None` when `q` does not decode to a flat map of strings.
pub uninterp spec fn qs_fields_of(q: Seq<char>) -> Option<Seq<(Seq<char>, Seq<char>)>>;

pub open spec fn opt_view(o: Option<String>) -> Option<Seq<char>> {
    match o {
        Some(s) => Some(s@),
        None => None,
    }
}

pub open spec fn pairs_view(v: Seq<(String, String)>) -> Seq<(Seq<char>, Seq<char>)> {
    v.map_values(|p: (String, String)| (p.0@, p.1@))
}

/// Relies on url::Url::parse and the accessors scheme, host_str and query.
#[verifier::external_body]
pub(crate) fn url_parts(s: &str) -> (r: Option<(String, Option<String>, Option<String>)>)
    ensures
        r matches Some((scheme, host, query)) ==> url_parts_of(s@) == Some(
            (scheme@, opt_view(host), opt_view(query)),
        ),
        r is None ==> url_parts_of(s@) is None,
{
    url::Url::parse(s).ok().map(
        |u| (u.scheme().to_string(), u.host_str().map(String::from), u.query().map(String::from)),
    )
}

/// Relies on serde_qs::from_str into a `BTreeMap<String, String>`, whose
/// entries come out in key order.
#[verifier::external_body]
fn query_fields(q: &str) -> (r: Option<Vec<(String, String)>>)
    ensures
        r matches Some(v) ==> qs_fields_of(q@) == Some(pairs_view(v@)),
        r is None ==> qs_fields_of(q@) is None,
{
    serde_qs::from_str::<std::collections::BTreeMap<String, String>>(q).ok().map(
        |m| m.into_iter().collect(),
    )
}

/// The value of the first field named `name`.
pub open spec fn field_of(pairs: Seq<(Seq<char>, Seq<char>)>, name: Seq<char>) -> Option<Seq<char>>
    decreases pairs.len(),
{
    if pairs.len() == 0 {
        None
    } else if pairs[0].0 == name {
        Some(pairs[0].1)
    } else {
        field_of(pairs.drop_first(), name)
    }
}

pub open spec fn is_digit(c: char) -> bool {
    48 <= (c as u32) <= 57
}

pub open spec fn all_digits(d: Seq<char>) -> bool {
    forall|i: int| 0 <= i < d.len() ==> is_digit(#[trigger] d[i])
}

/// The number that the decimal digits `d` denote.
pub open spec fn digits_value(d: Seq<char>) -> int
    decreases d.len(),
{
    if d.len() == 0 {
        0
    } else {
        digits_value(d.drop_last()) * 10 + ((d.last() as u32) - 48)
    }
}

/// A `u8` written in decimal, with an optional leading `+`.
pub open spec fn parse_u8_spec(s: Seq<char>) -> Option<u8> {
    let d = if s.len() > 0 && s[0] == '+' { s.drop_first() } else { s };
    if d.len() > 0 && all_digits(d) && digits_value(d) <= 255 {
        Some(digits_value(d) as u8)
    } else {
        None
    }
}

/// A parsed provisioning URI: `jasticket://<request id>?address=..&key=..&pinLen=..`.
#[derive(Debug, Clone, PartialEq, Eq)]
pub struct ProvisioningUri {
    pub request_id: String,
    pub address: String,
    pub key: String,
    pub pin_length: u8,
}

impl ProvisioningUri {
    pub open spec fn view(&self) -> (Seq<char>, Seq<char>, Seq<char>, u8) {
        (self.request_id@, self.address@, self.key@, self.pin_length)
    }
}

pub open spec fn result_view(r: Result<ProvisioningUri, InputFault>) -> Result<
    (Seq<char>, Seq<char>, Seq<char>, u8),
    InputFault,
> {
    match r {
        Ok(p) => Ok(p.view()),
        Err(e) => Err(e),
    }
}

/// The provisioning fields found in decoded query `pairs`, for request `request_id`.
pub open spec fn fields_spec(request_id: Seq<char>, pairs: Seq<(Seq<char>, Seq<char>)>) -> Result<
    (Seq<char>, Seq<char>, Seq<char>, u8),
    InputFault,
> {
    match (field_of(pairs, "address"@), field_of(pairs, "key"@), field_of(pairs, "pinLen"@)) {
        (Some(a), Some(k), Some(p)) => match parse_u8_spec(p) {
            Some(n) => Ok((request_id, a, k, n)),
            None => Err(InputFault::InvalidQuery),
        },
        _ => Err(InputFault::InvalidQuery),
    }
}

/// What parsing the provisioning URI `uri` gives.
pub open spec fn provisioning_spec(uri: Seq<char>) -> Result<
    (Seq<char>, Seq<char>, Seq<char>, u8),
    InputFault,
> {
    match url_parts_of(uri) {
        None => Err(InputFault::UnparsableUri),
        Some((scheme, host, query)) => if scheme != "jasticket"@ {
            Err(InputFault::WrongScheme)
        } else {
            match host {
                None => Err(InputFault::MissingHost),
                Some(h) => match query {
                    None => Err(InputFault::MissingQuery),
                    Some(q) => match qs_fields_of(q) {
                        None => Err(InputFault::InvalidQuery),
                        Some(pairs) => fields_spec(h, pairs),
                    },
                },
            }
        },
    }
}

/// Looks up the first field named `name`.
pub fn find_field(pairs: &Vec<(String, String)>, name: &str) -> (r: Option<String>)
    ensures
        opt_view(r) == field_of(pairs_view(pairs@), name@),
{
    let target = String::from_str(name);
    let ghost all = pairs_view(pairs@);
    let mut k: usize = 0;
    assert(all.skip(0) =~= all);
    while k < pairs.len()
        invariant
            k <= pairs@.len(),
            all == pairs_view(pairs@),
            target@ == name@,
            field_of(all, name@) == field_of(all.skip(k as int), name@),
        decreases pairs@.len() - k,
    {
        assert(all.skip(k as int)[0] == (pairs@[k as int].0@, pairs@[k as int].1@));
        if pairs[k].0 == target {
            return Some(pairs[k].1.clone());
        }
        assert(all.skip(k as int).drop_first() =~= all.skip(k + 1));
        k = k + 1;
    }
    assert(all.skip(k as int).len() == 0);
    None
}

/// Reads a `u8` written in decimal, with an optional leading `+`.
pub fn parse_u8(s: &str) -> (r: Option<u8>)
    ensures
        r == parse_u8_spec(s@),
{
    let n = s.unicode_len();
    let mut start: usize = 0;
    if n > 0 && s.get_char(0) == '+' {
        start = 1;
    }
    let ghost d = if s@.len() > 0 && s@[0] == '+' { s@.drop_first() } else { s@ };
    assert(d =~= s@.subrange(start as int, n as int));
    if start >= n {
        return None;
    }
    let mut acc: u32 = 0;
    let mut k: usize = start;
    while k < n
        invariant
            start <= k <= n,
            n == s@.len(),
            d == s@.subrange(start as int, n as int),
            d == (if s@.len() > 0 && s@[0] == '+' { s@.drop_first() } else { s@ }),
            acc <= 2600,
            all_digits(d.take(k - start)),
            acc <= 255 ==> acc == digits_value(d.take(k - start)),
            acc > 255 ==> digits_value(d.take(k - start)) > 255,
        decreases n - k,
    {
        let c = s.get_char(k);
        let ghost m = (k - start) as int;
        assert(d[m] == c);
        if !((c as u32) >= 48 && (c as u32) <= 57) {
            assert(!is_digit(d[m]));
            return None;
        }
        assert(d.take(m + 1).drop_last() =~= d.take(m));
        assert(d.take(m + 1).last() == c);
        assert(all_digits(d.take(m + 1))) by {
            assert forall|i: int| 0 <= i < m + 1 implies is_digit(#[trigger] d.take(m + 1)[i]) by {
                if i < m {
                    assert(d.take(m + 1)[i] == d.take(m)[i]);
                }
            }
        }
        if acc <= 255 {
            acc = acc * 10 + (c as u32 - 48);
        }
        k = k + 1;
    }
    assert(d.take(n - start) =~= d);
    if acc <= 255 {
        Some(acc as u8)
    } else {
        None
    }
}

/// Checks the scheme, host and query of a parsed URL.
fn check_parts(scheme: &String, host: Option<String>, query: Option<String>) -> (r: Result<
    (String, String),
    InputFault,
>)
    ensures
        r matches Ok((h, q)) ==> scheme@ == "jasticket"@ && opt_view(host) == Some(h@)
            && opt_view(query) == Some(q@),
        r matches Err(e) ==> e == (if scheme@ != "jasticket"@ {
            InputFault::WrongScheme
        } else if host is None {
            InputFault::MissingHost
        } else {
            InputFault::MissingQuery
        }),
        r is Err ==> scheme@ != "jasticket"@ || host is None || query is None,
{
    let expected = String::from_str("jasticket");
    if !(*scheme == expected) {
        return Err(InputFault::WrongScheme);
    }
    match host {
        None => Err(InputFault::MissingHost),
        Some(h) => match query {
            None => Err(InputFault::MissingQuery),
            Some(q) => Ok((h, q)),
        },
    }
}

impl ProvisioningUri {
    /// Builds the provisioning fields for request `request_id` from the decoded
    /// query `pairs`: `address`, `key` and `pinLen` must all be present.
    pub fn from_fields(request_id: String, pairs: &Vec<(String, String)>) -> (r: Result<
        ProvisioningUri,
        InputFault,
    >)
        ensures
            result_view(r) == fields_spec(request_id@, pairs_view(pairs@)),
    {
        let address = find_field(pairs, "address");
        let key = find_field(pairs, "key");
        let pin = find_field(pairs, "pinLen");
        match (address, key, pin) {
            (Some(address), Some(key), Some(pin)) => match parse_u8(pin.as_str()) {
                Some(pin_length) => Ok(ProvisioningUri { request_id, address, key, pin_length }),
                None => Err(InputFault::InvalidQuery),
            },
            _ => Err(InputFault::InvalidQuery),
        }
    }

    /// Parses a provisioning URI. The scheme must be `jasticket`, the host is
    /// the request identifier, and the query carries `address`, `key` and
    /// `pinLen`.
    pub fn parse(uri: &str) -> (r: Result<ProvisioningUri, InputFault>)
        ensures
            result_view(r) == provisioning_spec(uri@),
    {
        match url_parts(uri) {
            None => Err(InputFault::UnparsableUri),
            Some((scheme, host, query)) => match check_parts(&scheme, host, query) {
                Err(e) => Err(e),
                Ok((h, q)) => match query_fields(q.as_str()) {
                    None => Err(InputFault::InvalidQuery),
                    Some(pairs) => ProvisioningUri::from_fields(h, &pairs),
                },
            },
        }
    }
}

/// A provisioning URI whose scheme is not `jasticket`, or that has no host,
/// or that has no query string, is rejected.
pub proof fn lemma_rejects_bad_uri(uri: Seq<char>)
    ensures
        url_parts_of(uri) matches Some((scheme, _, _)) && scheme != "jasticket"@ ==> provisioning_spec(
            uri,
        ) == Err::<(Seq<char>, Seq<char>, Seq<char>, u8), InputFault>(InputFault::WrongScheme),
        url_parts_of(uri) matches Some((_, host, _)) && host is None ==> provisioning_spec(uri) is Err,
        url_parts_of(uri) matches Some((_, _, query)) && query is None ==> provisioning_spec(uri) is Err,
        url_parts_of(uri) is None ==> provisioning_spec(uri) is Err,
{
}

} // verus!
