use jas_client::retry::{RetryState, Step};

#[test]
fn gives_up_after_exactly_max_attempts() {
    let mut s = RetryState::new(3);
    assert_eq!(s.start(), Step::Send);
    assert_eq!(s.record(false), Step::Send);
    assert_eq!(s.record(false), Step::Send);
    assert_eq!(s.record(false), Step::GiveUp);
    assert_eq!(s.attempts, 3);
}

#[test]
fn delivers_first_received_response() {
    let mut s = RetryState::new(3);
    assert_eq!(s.record(false), Step::Send);
    assert_eq!(s.record(true), Step::Deliver);
    assert_eq!(s.attempts, 2);
}

#[test]
fn single_attempt_bound() {
    let mut s = RetryState::new(1);
    assert_eq!(s.start(), Step::Send);
    assert_eq!(s.record(false), Step::GiveUp);
    let mut s = RetryState::new(1);
    assert_eq!(s.record(true), Step::Deliver);
}

#[test]
fn default_client_allows_three_attempts() {
    let client = jas_client::Client::new(None).unwrap();
    let s = client.retry_state();
    assert_eq!(s.max_attempts, 3);
    assert_eq!(s.attempts, 0);
}
