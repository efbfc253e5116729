use vstd::prelude::*;
use vstd::utf8::encode_utf8;
use vstd::string::StringExecFns;

use crate::error::CryptoFault;
use crate::uri::{url_parts, url_parts_of};
use aes_gcm::aead::{Aead, KeyInit};
use base64::Engine;
use hmac::Mac;

verus! {

/// The plaintext that AES-256-GCM recovers from `ct_tag` (ciphertext followed
/// by its 16-byte tag) under `key` and `nonce`, or `None` when the tag does
/// not authenticate.
pub uninterp spec fn aes256gcm_open(key: Seq<u8>, nonce: Seq<u8>, ct_tag: Seq<u8>) -> Option<Seq<u8>>;

/// The HMAC-SHA256 of `msg` under `key`.
pub uninterp spec fn hmac_sha256_of(key: Seq<u8>, msg: Seq<u8>) -> Seq<u8>;

/// The standard Base64 alphabet.
pub open spec fn b64_alphabet() -> Seq<char> {
    seq![
        'A', 'B', 'C', 'D', 'E', 'F', 'G', 'H', 'I', 'J', 'K', 'L', 'M', 'N', 'O', 'P',
        'Q', 'R', 'S', 'T', 'U', 'V', 'W', 'X', 'Y', 'Z', 'a', 'b', 'c', 'd', 'e', 'f',
        'g', 'h', 'i', 'j', 'k', 'l', 'm', 'n', 'o', 'p', 'q', 'r', 's', 't', 'u', 'v',
        'w', 'x', 'y', 'z', '0', '1', '2', '3', '4', '5', '6', '7', '8', '9', '+', '/',
    ]
}

/// The standard (padded) Base64 text of `bytes`: each group of three bytes
/// becomes four characters of six bits each; a last group of one or two
/// bytes is completed with `=`.
pub open spec fn base64_standard_of(bytes: Seq<u8>) -> Seq<char>
    decreases bytes.len(),
{
    let a = b64_alphabet();
    if bytes.len() == 0 {
        Seq::empty()
    } else if bytes.len() == 1 {
        let b0 = bytes[0] as int;
        seq![a[b0 / 4], a[(b0 % 4) * 16], '=', '=']
    } else if bytes.len() == 2 {
        let b0 = bytes[0] as int;
        let b1 = bytes[1] as int;
        seq![a[b0 / 4], a[(b0 % 4) * 16 + b1 / 16], a[(b1 % 16) * 4], '=']
    } else {
        let b0 = bytes[0] as int;
        let b1 = bytes[1] as int;
        let b2 = bytes[2] as int;
        seq![a[b0 / 4], a[(b0 % 4) * 16 + b1 / 16], a[(b1 % 16) * 4 + b2 / 64], a[b2 % 64]]
            + base64_standard_of(bytes.skip(3))
    }
}

/// Base64 text has four characters for each started group of three bytes.
pub proof fn lemma_base64_len(bytes: Seq<u8>)
    ensures
        base64_standard_of(bytes).len() == 4 * ((bytes.len() + 2) / 3),
    decreases bytes.len(),
{
    if bytes.len() >= 3 {
        lemma_base64_len(bytes.skip(3));
    }
}

/// The step, in seconds, of the TOTP generator that `TOTP::from_url` builds
/// from `uri`, or `None` when it refuses the URI.
pub uninterp spec fn totp_url_step(uri: Seq<char>) -> Option<u64>;

/// The one-time code that the generator built from `uri` gives at Unix time `time`.
pub uninterp spec fn totp_code_of(uri: Seq<char>, time: u64) -> Seq<char>;

/// Relies on aes_gcm::Aes256Gcm (KeyInit::new_from_slice and Aead::decrypt):
/// authenticated decryption, `None` when the tag does not match.
#[verifier::external_body]
fn aes256gcm_decrypt(key: &[u8], nonce: &[u8], ct_tag: &[u8]) -> (r: Option<Vec<u8>>)
    requires
        key@.len() == 32,
        nonce@.len() == 12,
    ensures
        r matches Some(p) ==> aes256gcm_open(key@, nonce@, ct_tag@) == Some(p@),
        r is None ==> aes256gcm_open(key@, nonce@, ct_tag@) is None,
{
    let cipher = <aes_gcm::Aes256Gcm as KeyInit>::new_from_slice(key).ok()?;
    cipher.decrypt(aes_gcm::Nonce::from_slice(nonce), ct_tag).ok()
}

/// Relies on hmac::Hmac<sha2::Sha256> (new_from_slice, update, finalize):
/// a 32-byte tag; HMAC accepts keys of any length.
#[verifier::external_body]
pub(crate) fn hmac_sha256(key: &[u8], msg: &[u8]) -> (r: Vec<u8>)
    ensures
        r@ == hmac_sha256_of(key@, msg@),
        r@.len() == 32,
{
    let mut mac = <hmac::Hmac<sha2::Sha256> as Mac>::new_from_slice(key).unwrap();
    mac.update(msg);
    mac.finalize().into_bytes().to_vec()
}

/// Relies on base64's STANDARD engine (Engine::encode): padded Base64
/// with the standard alphabet.
#[verifier::external_body]
pub(crate) fn base64_standard(bytes: &[u8]) -> (r: String)
    ensures
        r@ == base64_standard_of(bytes@),
{
    base64::engine::general_purpose::STANDARD.encode(bytes)
}

#[verifier::external_type_specification]
#[verifier::external_body]
pub struct ExTotp(totp_rs::TOTP);

/// A TOTP generator together with the URI it was built from and its step.
pub struct TotpGenerator {
    generator: totp_rs::TOTP,
    uri: String,
    step: u64,
}

/// An `otpauth` URI without a host, on which `TOTP::from_url` panics.
pub open spec fn otpauth_without_host(uri: Seq<char>) -> bool {
    url_parts_of(uri) matches Some((scheme, host, _)) && scheme == "otpauth"@ && host is None
}

/// Relies on totp_rs::TOTP::from_url: builds a generator from the step,
/// digits, algorithm and secret that the URI carries; it panics on an
/// `otpauth` URI without a host.
#[verifier::external_body]
fn totp_from_url(uri: &str) -> (r: Option<TotpGenerator>)
    requires
        !otpauth_without_host(uri@),
    ensures
        r matches Some(g) ==> totp_url_step(uri@) == Some(g.step) && g.uri@ == uri@,
        r is None ==> totp_url_step(uri@) is None,
{
    totp_rs::TOTP::from_url(uri).ok().map(
        |t| TotpGenerator { step: t.step, uri: uri.to_string(), generator: t },
    )
}

/// Relies on totp_rs::TOTP::generate: the code for `time`; it divides the
/// time by the step, so the step must not be zero.
#[verifier::external_body]
fn totp_generate(g: &TotpGenerator, time: u64) -> (r: String)
    requires
        g.step > 0,
    ensures
        r@ == totp_code_of(g.uri@, time),
{
    g.generator.generate(time)
}

/// The one-time code for `uri` at Unix time `time`: `None` when the URI
/// describes no TOTP generator or one with a zero step.
pub open spec fn totp_spec(uri: Seq<char>, time: u64) -> Option<Seq<char>> {
    if otpauth_without_host(uri) {
        None
    } else {
        match totp_url_step(uri) {
            Some(step) => if step > 0 {
                Some(totp_code_of(uri, time))
            } else {
                None
            },
            None => None,
        }
    }
}

/// Index of the first `.` in `data` at or after `from`, or `data.len()`.
pub open spec fn dot_from(data: Seq<u8>, from: int) -> int
    decreases data.len() - from,
{
    if from >= data.len() {
        data.len() as int
    } else if data[from] == 0x2eu8 {
        from
    } else {
        dot_from(data, from + 1)
    }
}

/// The enrollment bundle `nonce.ciphertext.tag` split into the nonce and the
/// ciphertext joined to its tag; `None` unless there are exactly three segments.
pub open spec fn bundle_parts(data: Seq<u8>) -> Option<(Seq<u8>, Seq<u8>)> {
    let n = data.len() as int;
    let i = dot_from(data, 0);
    let j = dot_from(data, i + 1);
    if i >= n || j >= n || dot_from(data, j + 1) < n {
        None
    } else {
        Some((data.subrange(0, i), data.subrange(i + 1, j) + data.subrange(j + 1, n)))
    }
}

/// What decrypting the enrollment bundle `data` under `key` gives.
pub open spec fn open_bundle_spec(data: Seq<u8>, key: Seq<u8>) -> Result<Seq<u8>, CryptoFault> {
    match bundle_parts(data) {
        None => Err(CryptoFault::MalformedBundle),
        Some((nonce, ct_tag)) => if key.len() != 32 {
            Err(CryptoFault::KeyLength)
        } else if nonce.len() != 12 {
            Err(CryptoFault::NonceLength)
        } else {
            match aes256gcm_open(key, nonce, ct_tag) {
                Some(p) => Ok(p),
                None => Err(CryptoFault::Authentication),
            }
        },
    }
}

proof fn lemma_dot_from_bounds(data: Seq<u8>, from: int)
    requires
        0 <= from,
    ensures
        from <= dot_from(data, from) || from >= data.len(),
        dot_from(data, from) <= data.len(),
        dot_from(data, from) < data.len() ==> data[dot_from(data, from)] == 0x2eu8,
    decreases data.len() - from,
{
    if from < data.len() && data[from] != 0x2eu8 {
        lemma_dot_from_bounds(data, from + 1);
    }
}

fn find_dot(data: &[u8], from: usize) -> (r: usize)
    requires
        from <= data@.len(),
    ensures
        r as int == dot_from(data@, from as int),
{
    let mut k: usize = from;
    while k < data.len()
        invariant
            from <= k <= data@.len(),
            dot_from(data@, from as int) == dot_from(data@, k as int),
        decreases data@.len() - k,
    {
        if data[k] == 0x2eu8 {
            return k;
        }
        k = k + 1;
    }
    k
}

fn copy_range(data: &[u8], lo: usize, hi: usize, out: &mut Vec<u8>)
    requires
        lo <= hi <= data@.len(),
    ensures
        final(out)@ == old(out)@ + data@.subrange(lo as int, hi as int),
{
    let mut k: usize = lo;
    while k < hi
        invariant
            lo <= k <= hi <= data@.len(),
            out@ == old(out)@ + data@.subrange(lo as int, k as int),
        decreases hi - k,
    {
        out.push(data[k]);
        assert(data@.subrange(lo as int, k + 1) == data@.subrange(lo as int, k as int)
            + seq![data@[k as int]]);
        k = k + 1;
    }
}

/// Splits the enrollment bundle into its nonce and its ciphertext with the
/// tag appended.
pub fn split_bundle(data: &[u8]) -> (r: Option<(Vec<u8>, Vec<u8>)>)
    ensures
        r matches Some((nonce, ct_tag)) ==> bundle_parts(data@) == Some((nonce@, ct_tag@)),
        r is None ==> bundle_parts(data@) is None,
{
    let n = data.len();
    let i = find_dot(data, 0);
    proof { lemma_dot_from_bounds(data@, 0); }
    if i >= n {
        return None;
    }
    let j = find_dot(data, i + 1);
    proof { lemma_dot_from_bounds(data@, i + 1); }
    if j >= n {
        return None;
    }
    let rest = find_dot(data, j + 1);
    proof { lemma_dot_from_bounds(data@, j + 1); }
    if rest < n {
        return None;
    }
    let mut nonce: Vec<u8> = Vec::new();
    copy_range(data, 0, i, &mut nonce);
    let mut ct_tag: Vec<u8> = Vec::new();
    copy_range(data, i + 1, j, &mut ct_tag);
    copy_range(data, j + 1, n, &mut ct_tag);
    assert(nonce@ == data@.subrange(0, i as int));
    assert(ct_tag@ == data@.subrange(i + 1, j as int) + data@.subrange(j + 1, n as int));
    Some((nonce, ct_tag))
}

/// Decrypts an enrollment bundle `nonce.ciphertext.tag` (raw bytes, not
/// Base64) with AES-256-GCM under the raw bytes of `key`.
pub fn open_bundle(data: &[u8], key: &[u8]) -> (r: Result<Vec<u8>, CryptoFault>)
    ensures
        r matches Ok(p) ==> open_bundle_spec(data@, key@) == Ok::<Seq<u8>, CryptoFault>(p@),
        r matches Err(e) ==> open_bundle_spec(data@, key@) == Err::<Seq<u8>, CryptoFault>(e),
{
    match split_bundle(data) {
        None => Err(CryptoFault::MalformedBundle),
        Some((nonce, ct_tag)) => {
            if key.len() != 32 {
                Err(CryptoFault::KeyLength)
            } else if nonce.len() != 12 {
                Err(CryptoFault::NonceLength)
            } else {
                match aes256gcm_decrypt(key, nonce.as_slice(), ct_tag.as_slice()) {
                    Some(p) => Ok(p),
                    None => Err(CryptoFault::Authentication),
                }
            }
        },
    }
}

/// The strings of `parts` joined with `:` between neighbours.
pub open spec fn join_colon(parts: Seq<Seq<char>>) -> Seq<char>
    decreases parts.len(),
{
    if parts.len() == 0 {
        Seq::empty()
    } else if parts.len() == 1 {
        parts[0]
    } else {
        join_colon(parts.drop_last()) + seq![':'] + parts.last()
    }
}

/// The views of a slice of string slices.
pub open spec fn strs_view(values: Seq<&str>) -> Seq<Seq<char>> {
    values.map_values(|s: &str| s@)
}

/// The approval signature: Base64 of HMAC-SHA256 under the UTF-8 bytes of
/// `key`, over the UTF-8 bytes of `parts` joined with `:`.
pub open spec fn signature_spec(key: Seq<char>, parts: Seq<Seq<char>>) -> Seq<char> {
    base64_standard_of(hmac_sha256_of(encode_utf8(key), encode_utf8(join_colon(parts))))
}

/// Joins `values` with `:` between neighbours.
pub fn join_with_colon(values: &[&str]) -> (r: String)
    ensures
        r@ == join_colon(strs_view(values@)),
{
    let mut out = String::from_str("");
    proof { reveal_strlit(""); }
    let mut k: usize = 0;
    while k < values.len()
        invariant
            k <= values@.len(),
            out@ == join_colon(strs_view(values@).take(k as int)),
        decreases values@.len() - k,
    {
        let ghost before = strs_view(values@).take(k as int);
        let ghost o = out@;
        if k > 0 {
            out.append(":");
            proof { reveal_strlit(":"); }
            assert(out@ == o + seq![':']);
        }
        let v: &str = values[k];
        out.append(v);
        assert(strs_view(values@)[k as int] == v@);
        let ghost after = strs_view(values@).take(k + 1);
        assert(after.drop_last() =~= before);
        assert(after.len() == k + 1);
        assert(after.last() == v@);
        if k == 0 {
            assert(join_colon(after) == after[0]);
        } else {
            assert(join_colon(after) == join_colon(before) + seq![':'] + v@);
        }
        k = k + 1;
    }
    assert(strs_view(values@).take(values@.len() as int) =~= strs_view(values@));
    out
}

/// The one-time code for `uri` at Unix time `time`.
pub fn totp_code(uri: &str, time: u64) -> (r: Result<String, CryptoFault>)
    ensures
        r matches Ok(c) ==> totp_spec(uri@, time) == Some(c@),
        r matches Err(e) ==> totp_spec(uri@, time) is None && e == CryptoFault::Totp,
{
    if let Some((scheme, host, _)) = url_parts(uri) {
        let otpauth = String::from_str("otpauth");
        if scheme == otpauth && host.is_none() {
            return Err(CryptoFault::Totp);
        }
    }
    match totp_from_url(uri) {
        None => Err(CryptoFault::Totp),
        Some(g) => if g.step == 0 {
            Err(CryptoFault::Totp)
        } else {
            Ok(totp_generate(&g, time))
        },
    }
}

proof fn lemma_dot_from_skip(data: Seq<u8>, from: int, to: int)
    requires
        0 <= from <= to <= data.len(),
        forall|i: int| from <= i < to ==> #[trigger] data[i] != 0x2eu8,
    ensures
        dot_from(data, from) == dot_from(data, to),
    decreases to - from,
{
    if from < to {
        lemma_dot_from_skip(data, from + 1, to);
    }
}

/// Joining a nonce, a ciphertext and a tag (none holding a `.`) with `.`
/// and splitting the result again gives back the nonce and the ciphertext
/// with the tag appended; decrypting the joined bundle is decrypting those.
pub proof fn lemma_bundle_round_trip(nonce: Seq<u8>, ct: Seq<u8>, tag: Seq<u8>, key: Seq<u8>)
    requires
        forall|i: int| 0 <= i < nonce.len() ==> #[trigger] nonce[i] != 0x2eu8,
        forall|i: int| 0 <= i < ct.len() ==> #[trigger] ct[i] != 0x2eu8,
        forall|i: int| 0 <= i < tag.len() ==> #[trigger] tag[i] != 0x2eu8,
    ensures
        bundle_parts(nonce + seq![0x2eu8] + ct + seq![0x2eu8] + tag) == Some((nonce, ct + tag)),
        key.len() == 32 && nonce.len() == 12 ==> open_bundle_spec(
            nonce + seq![0x2eu8] + ct + seq![0x2eu8] + tag,
            key,
        ) == match aes256gcm_open(key, nonce, ct + tag) {
            Some(p) => Ok::<Seq<u8>, CryptoFault>(p),
            None => Err(CryptoFault::Authentication),
        },
{
    let data = nonce + seq![0x2eu8] + ct + seq![0x2eu8] + tag;
    let a = nonce.len() as int;
    let b = a + 1 + ct.len();
    let n = data.len() as int;
    assert forall|i: int| 0 <= i < a implies #[trigger] data[i] != 0x2eu8 by {
        assert(data[i] == nonce[i]);
    }
    assert forall|i: int| a + 1 <= i < b implies #[trigger] data[i] != 0x2eu8 by {
        assert(data[i] == ct[i - a - 1]);
    }
    assert forall|i: int| b + 1 <= i < n implies #[trigger] data[i] != 0x2eu8 by {
        assert(data[i] == tag[i - b - 1]);
    }
    lemma_dot_from_skip(data, 0, a);
    lemma_dot_from_skip(data, a + 1, b);
    lemma_dot_from_skip(data, b + 1, n);
    assert(data[a] == 0x2eu8);
    assert(data[b] == 0x2eu8);
    assert(dot_from(data, 0) == a);
    assert(dot_from(data, a + 1) == b);
    assert(data.subrange(0, a) =~= nonce);
    assert(data.subrange(a + 1, b) + data.subrange(b + 1, n) =~= ct + tag);
}

} // verus!
