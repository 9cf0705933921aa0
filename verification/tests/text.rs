use gmo_coin::text::{decimal_string, matches_token, push_decimal, same_text};

#[test]
fn decimal_string_writes_numerals() {
    assert_eq!(decimal_string(0), "0");
    assert_eq!(decimal_string(7), "7");
    assert_eq!(decimal_string(10), "10");
    assert_eq!(decimal_string(1609459200000), "1609459200000");
    assert_eq!(decimal_string(u64::MAX), "18446744073709551615");
}

#[test]
fn push_decimal_appends() {
    let mut out = String::from("page=");
    push_decimal(&mut out, 100);
    assert_eq!(out, "page=100");
    push_decimal(&mut out, 0);
    assert_eq!(out, "page=1000");
}

#[test]
fn matches_token_folds_ascii_letters_only() {
    assert!(matches_token("btc", "BTC"));
    assert!(matches_token("BtC", "BTC"));
    assert!(matches_token("btc_jpy", "BTC_JPY"));
    assert!(matches_token("", ""));
    assert!(!matches_token("btc", "BTC_JPY"));
    assert!(!matches_token("btcc", "BTC"));
    assert!(!matches_token("bt", "BTC"));
    assert!(!matches_token("b\u{1d40}c", "BTC"));
    assert!(!matches_token("btc\u{0}", "BTC"));
    assert!(!matches_token("`TC", "@TC"));
    assert!(!matches_token("{", "["));
}

#[test]
fn same_text_compares_texts() {
    assert!(same_text("", ""));
    assert!(same_text("price", "price"));
    assert!(same_text("é", "é"));
    assert!(!same_text("price", "Price"));
    assert!(!same_text("price", "prices"));
    assert!(!same_text("", " "));
}
