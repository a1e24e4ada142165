//! Key-value parsing behaviour, including the documented scenario of
//! `r=abc,s=def,i=4096` and the rejection of fragments without `=`.

use raystack::auth::parse_u32;
use raystack::parse_key_value_pairs;
use raystack::text::hex_string;

#[test]
fn parses_three_pairs() {
    let kvps = parse_key_value_pairs("r=abc,s=def,i=4096").unwrap();
    assert_eq!(kvps.get("r").unwrap(), "abc");
    assert_eq!(kvps.get("s").unwrap(), "def");
    assert_eq!(kvps.get("i").unwrap(), "4096");
}

#[test]
fn input_without_equals_is_an_error() {
    assert!(parse_key_value_pairs("garbage").is_err());
    assert!(parse_key_value_pairs("r=abc,garbage").is_err());
}

#[test]
fn missing_key_is_an_error() {
    let kvps = parse_key_value_pairs("r=abc").unwrap();
    assert!(kvps.get("s").is_err());
}

#[test]
fn scram_literal_is_ignored() {
    let kvps = parse_key_value_pairs("SCRAM handshakeToken=abc, hash=SHA-256").unwrap();
    assert_eq!(kvps.get("handshakeToken").unwrap(), "abc");
    assert_eq!(kvps.get("hash").unwrap(), "SHA-256");
    let kvps = parse_key_value_pairs("scram data=xyz").unwrap();
    assert_eq!(kvps.get("data").unwrap(), "xyz");
}

#[test]
fn empty_fragments_are_ignored() {
    let kvps = parse_key_value_pairs("  a=1 ,, b=2  ").unwrap();
    assert_eq!(kvps.get("a").unwrap(), "1");
    assert_eq!(kvps.get("b").unwrap(), "2");
}

#[test]
fn value_keeps_interior_equals_and_drops_leading_ones() {
    let kvps = parse_key_value_pairs("a=b=c,d==e,f=g==").unwrap();
    assert_eq!(kvps.get("a").unwrap(), "b=c");
    assert_eq!(kvps.get("d").unwrap(), "e");
    assert_eq!(kvps.get("f").unwrap(), "g==");
}

#[test]
fn first_pair_wins_on_duplicate_keys() {
    let kvps = parse_key_value_pairs("k=first,k=second").unwrap();
    assert_eq!(kvps.get("k").unwrap(), "first");
}

#[test]
fn empty_input_parses_to_no_pairs() {
    let kvps = parse_key_value_pairs("").unwrap();
    assert!(kvps.get("anything").is_err());
}

#[test]
fn iteration_count_parsing_matches_integer_parsing() {
    assert_eq!(parse_u32("4096"), Some(4096));
    assert_eq!(parse_u32("+4096"), Some(4096));
    assert_eq!(parse_u32("0"), Some(0));
    assert_eq!(parse_u32(""), None);
    assert_eq!(parse_u32("+"), None);
    assert_eq!(parse_u32("-1"), None);
    assert_eq!(parse_u32("12a"), None);
    assert_eq!(parse_u32("4294967295"), Some(u32::MAX));
    assert_eq!(parse_u32("4294967296"), None);
    assert_eq!(parse_u32("99999999999999999999"), None);
}

#[test]
fn hex_rendering_uses_shortest_digits() {
    assert_eq!(hex_string(&[0x05, 0xab, 0x00, 0xff]), "5ab0ff");
    assert_eq!(hex_string(&[]), "");
}
