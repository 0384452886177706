use crisma_api::text::bearer_token;
use crisma_api::text::decimal;
use crisma_api::text::decimal_unsigned;
use crisma_api::text::same_text;
use crisma_api::text::split_token;

#[test]
fn bearer_scheme_is_stripped() {
    assert_eq!(bearer_token("Bearer abc.def.ghi"), Some("abc.def.ghi"));
    assert_eq!(bearer_token("Bearer "), Some(""));
    assert_eq!(bearer_token("Bearer  x"), Some(" x"));
}

#[test]
fn other_schemes_carry_no_bearer_token() {
    assert_eq!(bearer_token(""), None);
    assert_eq!(bearer_token("Bearer"), None);
    assert_eq!(bearer_token("bearer abc"), None);
    assert_eq!(bearer_token("BEARER abc"), None);
    assert_eq!(bearer_token("Basic dXNlcjpwdw=="), None);
    assert_eq!(bearer_token(" Bearer abc"), None);
    assert_eq!(bearer_token("Bearer\tabc"), None);
}

#[test]
fn header_outside_ascii_carries_no_bearer_token() {
    assert_eq!(bearer_token("Bearer t\u{f6}ken"), None);
    assert_eq!(bearer_token("Bearer \u{1f600}"), None);
}

#[test]
fn three_segments_are_cut_at_the_dots() {
    let parts = split_token("aaa.bb.c").expect("three segments");
    assert_eq!(parts.header, "aaa");
    assert_eq!(parts.payload, "bb");
    assert_eq!(parts.signature, "c");
}

#[test]
fn empty_segments_are_segments() {
    let parts = split_token("..").expect("three empty segments");
    assert_eq!(parts.header, "");
    assert_eq!(parts.payload, "");
    assert_eq!(parts.signature, "");
    let parts = split_token("a..c").expect("empty payload");
    assert_eq!(parts.header, "a");
    assert_eq!(parts.payload, "");
    assert_eq!(parts.signature, "c");
}

#[test]
fn fewer_or_more_than_three_segments_do_not_split() {
    assert!(split_token("").is_none());
    assert!(split_token("abc").is_none());
    assert!(split_token("abc.def").is_none());
    assert!(split_token("a.b.c.d").is_none());
    assert!(split_token("....").is_none());
}

#[test]
fn token_outside_ascii_does_not_split() {
    assert!(split_token("a.b\u{e9}.c").is_none());
}

#[test]
fn decimal_notation_of_integers() {
    assert_eq!(decimal(0), "0");
    assert_eq!(decimal(7), "7");
    assert_eq!(decimal(10), "10");
    assert_eq!(decimal(42), "42");
    assert_eq!(decimal(1203), "1203");
    assert_eq!(decimal(-1), "-1");
    assert_eq!(decimal(-950), "-950");
    assert_eq!(decimal(i32::MAX as i64), "2147483647");
    assert_eq!(decimal(i32::MIN as i64), "-2147483648");
    assert_eq!(decimal(i64::MAX), "9223372036854775807");
    assert_eq!(decimal(i64::MIN), "-9223372036854775808");
}

#[test]
fn decimal_notation_agrees_with_std() {
    let samples: Vec<i64> = vec![1, 9, 11, 99, 100, 101, 999, 1000, 65535, 65536, 1_000_000, -7, -10, -65536];
    for n in samples {
        assert_eq!(decimal(n), n.to_string());
    }
}

#[test]
fn texts_are_compared_by_character() {
    assert!(same_text("", ""));
    assert!(same_text("admin", "admin"));
    assert!(!same_text("admin", "Admin"));
    assert!(!same_text("admin", "admin "));
    assert!(!same_text("admin", "admi"));
    assert!(same_text("k\u{e9}y", "k\u{e9}y"));
    assert!(!same_text("k\u{e9}y", "key"));
}

#[test]
fn decimal_notation_without_sign() {
    assert_eq!(decimal_unsigned(0), "0");
    assert_eq!(decimal_unsigned(10), "10");
    assert_eq!(decimal_unsigned(u64::MAX), "18446744073709551615");
}
