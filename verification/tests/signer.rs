use gmo_coin::sign::{millis, sign_request, timestamp, timestamp_at, try_sign_request};
use gmo_coin::error::GmoCoinError;

#[test]
fn signature_matches_the_pinned_vector() {
    let sig = sign_request(1609459200000, "GET", "/v1/account/margin", "", "test-secret");
    assert_eq!(sig, "1a9a254944351ea5b71b8a916c79403468ae1c12849993cfd7d0d2d885338ebf");
}

#[test]
fn signature_is_deterministic() {
    let first = sign_request(1609459200000, "GET", "/v1/account/margin", "", "test-secret");
    let second = sign_request(1609459200000, "GET", "/v1/account/margin", "", "test-secret");
    assert_eq!(first, second);
}

#[test]
fn signature_changes_with_each_input() {
    let base = sign_request(1609459200000, "GET", "/v1/account/margin", "", "test-secret");
    assert_eq!(
        sign_request(1609459200001, "GET", "/v1/account/margin", "", "test-secret"),
        "d98e5fbff9548822bab9105bd50ee360bb7cd70ae02d8f425ac27838fca531ce"
    );
    assert_eq!(
        sign_request(1609459200000, "POST", "/v1/account/margin", "", "test-secret"),
        "e90addfb45ec41d5cf0f61b7c525e775920fe46302c249efdb1b7e4ad26bd684"
    );
    assert_eq!(
        sign_request(1609459200000, "GET", "/v1/account/assets", "", "test-secret"),
        "da2051c88e371a7abc416f2e23e144f52fc6c5a7230ed066e6055edcc8f90a23"
    );
    assert_eq!(
        sign_request(1609459200000, "GET", "/v1/account/margin", "{}", "test-secret"),
        "86d9df6f8ea7054b96e98c68eb22a580026ca2b7c89e46722c0989ec09a5de85"
    );
    assert_eq!(
        sign_request(1609459200000, "GET", "/v1/account/margin", "", "test-secret2"),
        "29df6f4d6b1fb1b6f680df24c34e4bed7c355ccb33ab7950f11233615e8a1db7"
    );
    assert_ne!(base, "d98e5fbff9548822bab9105bd50ee360bb7cd70ae02d8f425ac27838fca531ce");
}

#[test]
fn signature_is_lower_case_hex_of_32_bytes() {
    let sig = sign_request(0, "POST", "/v1/order", "{}", "k");
    assert_eq!(sig.len(), 64);
    assert!(sig.chars().all(|c| c.is_ascii_digit() || ('a'..='f').contains(&c)));
}

#[test]
fn try_sign_request_signs_what_can_be_signed() {
    let sig = try_sign_request(1609459200000, "GET", "/v1/account/margin", "", "test-secret");
    assert_eq!(
        sig,
        Some(String::from("1a9a254944351ea5b71b8a916c79403468ae1c12849993cfd7d0d2d885338ebf"))
    );
}

#[test]
fn millis_joins_seconds_and_nanoseconds() {
    assert_eq!(millis(1609459200, 0), Some(1609459200000));
    assert_eq!(millis(1609459200, 999_999_999), Some(1609459200999));
    assert_eq!(millis(1, 1_999_999), Some(1001));
    assert_eq!(millis(0, 999_999), Some(0));
    assert_eq!(millis(u64::MAX / 1000, 0), Some(18446744073709551000));
    assert_eq!(millis(u64::MAX / 1000, 615_000_000), Some(u64::MAX));
    assert_eq!(millis(u64::MAX / 1000, 616_000_000), None);
    assert_eq!(millis(u64::MAX / 1000 + 1, 0), None);
}

#[test]
fn timestamp_at_reports_a_clock_out_of_range() {
    assert_eq!(timestamp_at(1609459200, 123_456_789), Ok(1609459200123));
    assert_eq!(timestamp_at(u64::MAX, 0), Err(GmoCoinError::SystemTime));
}

#[test]
fn timestamp_reads_a_time_after_2020() {
    let now = timestamp().unwrap();
    assert!(now > 1_577_836_800_000);
}
