//! The error channel: both failure kinds carry their message and stay
//! distinguishable.

use pokemontcgio::Error;

#[test]
fn transport_failures_carry_their_message() {
    let err = Error::ApiResponseError("connection refused".to_string());
    assert_eq!(err.message(), "connection refused");
}

#[test]
fn decode_failures_carry_their_message() {
    let err = Error::JSONParseError("expected value at line 1".to_string());
    assert_eq!(err.message(), "expected value at line 1");
}

#[test]
fn the_two_failure_kinds_are_distinct() {
    let transport = Error::ApiResponseError("boom".to_string());
    let decode = Error::JSONParseError("boom".to_string());
    assert_ne!(transport, decode);
    assert!(matches!(transport, Error::ApiResponseError(_)));
    assert!(matches!(decode, Error::JSONParseError(_)));
}
