use session_token::{check_window, validate};
use session_token::{Duration, Envelope, Error, SignerError, LEEWAY};

#[test]
fn the_tolerance_is_sixty_seconds() {
    assert_eq!(LEEWAY, 60);
}

#[test]
fn window_is_widened_at_both_ends() {
    // valid from 500 to 1000
    assert_eq!(check_window(1_000, 500, 439), Err(Error::NotYetValid));
    assert_eq!(check_window(1_000, 500, 440), Ok(()));
    assert_eq!(check_window(1_000, 500, 500), Ok(()));
    assert_eq!(check_window(1_000, 500, 750), Ok(()));
    assert_eq!(check_window(1_000, 500, 1_000), Ok(()));
    assert_eq!(check_window(1_000, 500, 1_060), Ok(()));
    assert_eq!(check_window(1_000, 500, 1_061), Err(Error::Expired));
}

#[test]
fn window_at_the_ends_of_time() {
    assert_eq!(check_window(0, 0, 0), Ok(()));
    assert_eq!(check_window(0, 0, 59), Ok(()));
    assert_eq!(check_window(0, 0, 60), Ok(()));
    assert_eq!(check_window(0, 0, 61), Err(Error::Expired));
    assert_eq!(check_window(u64::MAX, 61, 0), Err(Error::NotYetValid));
    assert_eq!(check_window(u64::MAX, 60, 0), Ok(()));
    assert_eq!(check_window(u64::MAX, u64::MAX, u64::MAX), Ok(()));
    assert_eq!(check_window(u64::MAX, u64::MAX, u64::MAX - 60), Ok(()));
    assert_eq!(check_window(u64::MAX, u64::MAX, u64::MAX - 61), Err(Error::NotYetValid));
    assert_eq!(check_window(u64::MAX - 60, 0, u64::MAX), Ok(()));
    assert_eq!(check_window(u64::MAX - 61, 0, u64::MAX), Err(Error::Expired));
}

#[test]
fn expiry_is_judged_first() {
    // a window turned inside out: past its end and before its start
    assert_eq!(check_window(10, 500, 100), Err(Error::Expired));
}

#[test]
fn validate_reports_the_signer_s_refusal() {
    let at = Duration::from_secs(1_000);
    assert_eq!(validate(Err(SignerError::InvalidSignature), at), Err(Error::InvalidSignature));
    assert_eq!(validate(Err(SignerError::Malformed), at), Err(Error::MalformedToken));
    assert_eq!(SignerError::InvalidSignature.report(), Error::InvalidSignature);
    assert_eq!(SignerError::Malformed.report(), Error::MalformedToken);
}

#[test]
fn validate_hands_out_the_payload_inside_the_window() {
    let envelope = Envelope { exp: Some(1_300), nbf: Some(1_000), inner: Some("superadmin".to_string()) };
    assert_eq!(validate(Ok(envelope.clone()), Duration::from_secs(1_000)), Ok("superadmin".to_string()));
    assert_eq!(validate(Ok(envelope.clone()), Duration::new(1_360, 999_999_999)), Ok("superadmin".to_string()));
    assert_eq!(validate(Ok(envelope.clone()), Duration::from_secs(1_361)), Err(Error::Expired));
    assert_eq!(validate(Ok(envelope.clone()), Duration::from_secs(940)), Ok("superadmin".to_string()));
    assert_eq!(validate(Ok(envelope), Duration::new(939, 999_999_999)), Err(Error::NotYetValid));
}

#[test]
fn validate_wants_every_field() {
    let at = Duration::from_secs(1_000);
    let inner = || Some("superadmin".to_string());
    assert_eq!(
        validate(Ok(Envelope { exp: None, nbf: Some(1_000), inner: inner() }), at),
        Err(Error::MalformedToken)
    );
    assert_eq!(
        validate(Ok(Envelope { exp: Some(1_300), nbf: None, inner: inner() }), at),
        Err(Error::MalformedToken)
    );
    assert_eq!(
        validate(Ok(Envelope { exp: Some(1_300), nbf: Some(1_000), inner: None }), at),
        Err(Error::MalformedToken)
    );
    assert_eq!(validate(Ok(Envelope { exp: None, nbf: None, inner: None }), at), Err(Error::MalformedToken));
    // a missing field outweighs a window that is past
    assert_eq!(
        validate(Ok(Envelope { exp: Some(1), nbf: Some(0), inner: None }), at),
        Err(Error::MalformedToken)
    );
}
