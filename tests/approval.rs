use jas_client::client::{endpoint, is_success, UtcTime};
use jas_client::crypto::{join_with_colon, totp_code};
use jas_client::error::{CryptoFault, InputFault};
use jas_client::{Client, ClientError, Ticket};

const TOTP_URI: &str =
    "otpauth://totp/GitHub:test?secret=KRSXG5CTMVRXEZLUKN2XAZLSKNSWG4TFOQ&digits=8&period=60&algorithm=SHA256";

fn ticket(totp_uri: &str) -> Ticket {
    Ticket {
        request_id: "req123".to_string(),
        server_root_uri: "https://host".to_string(),
        pin_length: 6,
        auth_key: "K".to_string(),
        totp_uri: totp_uri.to_string(),
        token_id: "T1".to_string(),
    }
}

#[test]
fn hmac_known_value() {
    let sig = Client::get_hmac("key", &["The quick brown fox jumps over the lazy dog"]);
    assert_eq!(sig, "97yD9DBThCSxMpjmqm+xQ+9NWaFJRhdZl0edvC0aPNg=");
    let sig = Client::get_hmac("K", &["T1", "S1", "true", "123456"]);
    assert_eq!(sig, "iJ6sM63ZRyv94J9Y4rmj9fsyqznvZ61Z3ZTGbJ4PTO4=");
    assert_eq!(Client::get_hmac("", &[]).len(), 44);
}

#[test]
fn hmac_is_deterministic_and_input_sensitive() {
    let a = Client::get_hmac("K", &["T1", "S1", "true", "123456"]);
    assert_eq!(a, Client::get_hmac("K", &["T1", "S1", "true", "123456"]));
    assert_ne!(a, Client::get_hmac("K2", &["T1", "S1", "true", "123456"]));
    assert_ne!(a, Client::get_hmac("K", &["T2", "S1", "true", "123456"]));
    assert_ne!(a, Client::get_hmac("K", &["T1", "S2", "true", "123456"]));
    assert_ne!(a, Client::get_hmac("K", &["T1", "S1", "false", "123456"]));
    assert_ne!(a, Client::get_hmac("K", &["T1", "S1", "true", "654321"]));
}

#[test]
fn joins_with_colons() {
    assert_eq!(join_with_colon(&[]), "");
    assert_eq!(join_with_colon(&["a"]), "a");
    assert_eq!(join_with_colon(&["T1", "S1", "true", "42"]), "T1:S1:true:42");
}

#[test]
fn totp_code_matches_generator() {
    let expected = totp_rs::TOTP::from_url(TOTP_URI).unwrap().generate(1_000_000_000);
    assert_eq!(totp_code(TOTP_URI, 1_000_000_000), Ok(expected.clone()));
    assert_eq!(expected.len(), 8);
    assert_eq!(totp_code("otpauth://totp/X?secret=ABC&digits=6", 0), Err(CryptoFault::Totp));
}

#[test]
fn totp_zero_period_refused() {
    let uri = "otpauth://totp/GitHub:test?secret=KRSXG5CTMVRXEZLUKN2XAZLSKNSWG4TFOQ&digits=8&period=0";
    assert_eq!(totp_code(uri, 1_000_000_000), Err(CryptoFault::Totp));
}

#[test]
fn totp_without_host_refused() {
    let uri = "otpauth:totp?secret=KRSXG5CTMVRXEZLUKN2XAZLSKNSWG4TFOQ&digits=8";
    assert_eq!(totp_code(uri, 1_000_000_000), Err(CryptoFault::Totp));
    assert_eq!(totp_code("not a uri", 1_000_000_000), Err(CryptoFault::Totp));
}

#[test]
fn accept_call_builds_signed_body() {
    let client = Client::new(None).unwrap();
    let t = ticket(TOTP_URI);
    let now = UtcTime { secs: 1_000_000_000, nanos: 500_000_000 };
    let post = client.accept_call_at(&t, "S1", now).unwrap();
    let code = totp_rs::TOTP::from_url(TOTP_URI).unwrap().generate(1_000_000_000);
    assert_eq!(post.url, "https://host/acceptToken");
    let b = post.body;
    assert!(b.accepted);
    assert_eq!(b.device_time, "2001-09-09T01:46:40.500Z");
    assert_eq!(b.mobile_local_time, b.device_time);
    assert_eq!(b.hmac, Client::get_hmac("K", &["T1", "S1", "true", &code]));
    assert_eq!(b.jassessionid, "");
    assert_eq!(b.language, "en");
    assert_eq!(b.mobile_os, "ios");
    assert_eq!(b.mobile_version, "1.3.1.124");
    assert_eq!(b.session_id, "S1");
    assert_eq!(b.token_uid, "T1");
    assert_eq!(b.valueotp, code);
}

#[test]
fn accept_whole_second_timestamp() {
    let client = Client::new(None).unwrap();
    let now = UtcTime { secs: 1_000_000_000, nanos: 0 };
    let post = client.accept_call_at(&ticket(TOTP_URI), "S1", now).unwrap();
    assert_eq!(post.body.device_time, "2001-09-09T01:46:40Z");
}

#[test]
fn accept_errors() {
    let client = Client::new(None).unwrap();
    let now = UtcTime { secs: 1_000_000_000, nanos: 0 };
    assert_eq!(
        client.accept_call_at(&ticket(TOTP_URI), "", now),
        Err(ClientError::InputFormat(InputFault::EmptySessionId))
    );
    assert_eq!(
        client.accept_call_at(&ticket("otpauth://totp/X?secret=ABC&digits=6"), "S1", now),
        Err(ClientError::Crypto(CryptoFault::Totp))
    );
    let before_epoch = UtcTime { secs: -5, nanos: 0 };
    assert_eq!(
        client.accept_call_at(&ticket(TOTP_URI), "S1", before_epoch),
        Err(ClientError::Crypto(CryptoFault::Totp))
    );
    let bad_nanos = UtcTime { secs: 1_000_000_000, nanos: 3_000_000_000 };
    assert_eq!(
        client.accept_call_at(&ticket(TOTP_URI), "S1", bad_nanos),
        Err(ClientError::InputFormat(InputFault::InvalidTime))
    );
}

#[test]
fn accept_call_now_succeeds() {
    let client = Client::new(None).unwrap();
    let post = client.accept_call(&ticket(TOTP_URI), "S1").unwrap();
    assert_eq!(post.body.device_time, post.body.mobile_local_time);
    assert_eq!(post.body.valueotp.len(), 8);
}

#[test]
fn error_classification() {
    let e = Client::get_error("/acceptToken", 403, Some("{\"message\":\"bad otp\"}".to_string()), Some("bad otp".to_string()));
    assert_eq!(e, ClientError::Protocol { path: "/acceptToken".to_string(), status: 403, message: Some("bad otp".to_string()) });
    let e = Client::get_error("/register", 500, Some("oops".to_string()), None);
    assert_eq!(e, ClientError::Protocol { path: "/register".to_string(), status: 500, message: Some("oops".to_string()) });
    let e = Client::get_error("/updateTokens", 502, None, None);
    assert_eq!(e, ClientError::Protocol { path: "/updateTokens".to_string(), status: 502, message: None });
}

#[test]
fn status_and_endpoint() {
    assert!(is_success(200));
    assert!(is_success(299));
    assert!(!is_success(199));
    assert!(!is_success(300));
    assert!(!is_success(404));
    assert_eq!(endpoint("https://host", "register"), "https://host/register");
}

#[test]
fn zero_retries_refused() {
    assert_eq!(Client::new(Some(0)), Err(ClientError::InputFormat(InputFault::ZeroRetries)));
    assert_eq!(Client::new(Some(3)), Client::new(None));
}

#[test]
fn clock_reads_after_epoch() {
    let now = jas_client::client::utc_now().unwrap();
    assert!(now.secs > 1_600_000_000);
    assert!(now.nanos < 1_000_000_000);
}
