use aes_gcm::aead::{Aead, KeyInit};
use jas_client::crypto::{open_bundle, split_bundle};
use jas_client::dtos::register;
use jas_client::error::CryptoFault;
use jas_client::{Client, ClientError, Ticket};

const KEY: &[u8] = b"0123456789abcdef0123456789abcdef";
const PLAINTEXT: &str =
    "{\"authkey\":\"K\",\"otp\":\"otpauth://totp/X?secret=ABC&digits=6\",\"tokenUID\":\"T1\"}";

/// Encrypts `plain` and returns (nonce, ciphertext, tag), picking a nonce
/// for which no segment holds a `.`.
fn seal(plain: &[u8]) -> (Vec<u8>, Vec<u8>, Vec<u8>) {
    let cipher = aes_gcm::Aes256Gcm::new_from_slice(KEY).unwrap();
    for n in 0u8..=255 {
        let nonce = [b'n', b'o', b'n', b'c', b'e', b'-', b'1', b'2', b'3', b'4', b'5', n];
        if n == b'.' {
            continue;
        }
        let out = cipher.encrypt(aes_gcm::Nonce::from_slice(&nonce), plain).unwrap();
        let (ct, tag) = out.split_at(out.len() - 16);
        if !ct.contains(&b'.') && !tag.contains(&b'.') {
            return (nonce.to_vec(), ct.to_vec(), tag.to_vec());
        }
    }
    panic!("no nonce without a dot");
}

fn join(nonce: &[u8], ct: &[u8], tag: &[u8]) -> Vec<u8> {
    let mut data = nonce.to_vec();
    data.push(b'.');
    data.extend_from_slice(ct);
    data.push(b'.');
    data.extend_from_slice(tag);
    data
}

fn json_field(v: &serde_json::Value, name: &str) -> String {
    v.get(name).and_then(|f| f.as_str()).unwrap().to_string()
}

#[test]
fn bundle_round_trips() {
    let (nonce, ct, tag) = seal(PLAINTEXT.as_bytes());
    let data = join(&nonce, &ct, &tag);
    let (n2, ct_tag) = split_bundle(&data).unwrap();
    assert_eq!(n2, nonce);
    assert_eq!(ct_tag, [ct.clone(), tag.clone()].concat());
    assert_eq!(open_bundle(&data, KEY).unwrap(), PLAINTEXT.as_bytes());
}

fn flip(b: u8) -> u8 {
    if b ^ 1 == b'.' { b ^ 2 } else { b ^ 1 }
}

#[test]
fn corrupted_bundle_fails() {
    let (nonce, ct, tag) = seal(PLAINTEXT.as_bytes());
    let mut bad_nonce = nonce.clone();
    bad_nonce[3] = flip(bad_nonce[3]);
    let mut bad_ct = ct.clone();
    bad_ct[5] = flip(bad_ct[5]);
    let mut bad_tag = tag.clone();
    bad_tag[15] = flip(bad_tag[15]);
    for data in [join(&bad_nonce, &ct, &tag), join(&nonce, &bad_ct, &tag), join(&nonce, &ct, &bad_tag)] {
        assert_eq!(open_bundle(&data, KEY), Err(CryptoFault::Authentication));
    }
}

#[test]
fn malformed_bundles_fail() {
    assert_eq!(split_bundle(b"a.b"), None);
    assert_eq!(split_bundle(b"a.b.c.d"), None);
    assert_eq!(split_bundle(b"abc"), None);
    assert_eq!(split_bundle(b"a..c"), Some((b"a".to_vec(), b"c".to_vec())));
    assert_eq!(open_bundle(b"a.b", KEY), Err(CryptoFault::MalformedBundle));
    assert_eq!(open_bundle(b"123456789012.b.c", b"short"), Err(CryptoFault::KeyLength));
    assert_eq!(open_bundle(b"1234.b.c", KEY), Err(CryptoFault::NonceLength));
    assert_eq!(open_bundle(b"123456789012.b.c", KEY), Err(CryptoFault::Authentication));
}

#[test]
fn decrypt_register_response_reports_crypto_errors() {
    let key = std::str::from_utf8(KEY).unwrap();
    let response = register::Response { mobileauth: "only.two".to_string() };
    assert_eq!(
        Client::decrypt_register_response(&response, key),
        Err(ClientError::Crypto(CryptoFault::MalformedBundle))
    );
    let response = register::Response { mobileauth: "123456789012.abcdefgh.ijklmnopqrstuvwx".to_string() };
    assert_eq!(
        Client::decrypt_register_response(&response, key),
        Err(ClientError::Crypto(CryptoFault::Authentication))
    );
    assert_eq!(
        Client::decrypt_register_response(&response, "short"),
        Err(ClientError::Crypto(CryptoFault::KeyLength))
    );
}

#[test]
fn register_yields_ticket() {
    let client = Client::new(None).unwrap();
    let uri = "jasticket://req123?address=https://host&key=0123456789abcdef0123456789abcdef&pinLen=6";
    let (p, _post) = client.register_start(uri).unwrap();
    let (nonce, ct, tag) = seal(PLAINTEXT.as_bytes());
    let plain = open_bundle(&join(&nonce, &ct, &tag), p.key.as_bytes()).unwrap();
    let v: serde_json::Value = serde_json::from_slice(&plain).unwrap();
    let secrets = register::ResponseDecrypted {
        authkey: json_field(&v, "authkey"),
        otp: json_field(&v, "otp"),
        token_uid: json_field(&v, "tokenUID"),
    };
    let ticket = Client::ticket_from_registration(p, secrets).unwrap();
    assert_eq!(
        ticket,
        Ticket {
            request_id: "req123".to_string(),
            server_root_uri: "https://host".to_string(),
            pin_length: 6,
            auth_key: "K".to_string(),
            totp_uri: "otpauth://totp/X?secret=ABC&digits=6".to_string(),
            token_id: "T1".to_string(),
        }
    );
    assert!(ticket.is_usable());
}

#[test]
fn registration_refuses_empty_fields() {
    let client = Client::new(None).unwrap();
    let uri = "jasticket://req123?address=https://host&key=0123456789abcdef0123456789abcdef&pinLen=6";
    let (p, _post) = client.register_start(uri).unwrap();
    let secrets = register::ResponseDecrypted {
        authkey: "K".to_string(),
        otp: "otpauth://totp/X?secret=ABC&digits=6".to_string(),
        token_uid: String::new(),
    };
    assert_eq!(
        Client::ticket_from_registration(p, secrets),
        Err(ClientError::InputFormat(jas_client::InputFault::IncompleteTicket))
    );
}
