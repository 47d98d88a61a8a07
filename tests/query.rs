use social_login::error::AuthError;
use social_login::query::{
    decode_query, encode_query, endpoint_url, i64_decimal, join_with, lookup, required,
    u64_decimal,
};

fn pairs(items: &[(&str, &str)]) -> Vec<(String, String)> {
    items.iter().map(|(k, v)| (k.to_string(), v.to_string())).collect()
}

#[test]
fn encode_query_escapes_reserved_and_non_ascii() {
    let q = encode_query(&pairs(&[("a b", "é&="), ("x", "*-._~")])).unwrap();
    assert_eq!(q, "a+b=%C3%A9%26%3D&x=*-._%7E");
}

#[test]
fn encode_query_of_nothing_is_empty() {
    assert_eq!(encode_query(&Vec::new()).unwrap(), "");
}

#[test]
fn decode_query_reads_back_encoded_pairs() {
    let written = pairs(&[("redirect_uri", "https://app/cb"), ("scope", "a b,c"), ("", "")]);
    let q = encode_query(&written).unwrap();
    assert_eq!(decode_query(&q).unwrap(), written);
}

#[test]
fn endpoint_url_joins_base_and_query() {
    let url = endpoint_url("https://h/p", &pairs(&[("k", "v w")])).unwrap();
    assert_eq!(url, "https://h/p?k=v+w");
}

#[test]
fn lookup_takes_first_pair_with_the_name() {
    let p = pairs(&[("a", "1"), ("b", "2"), ("a", "3")]);
    assert_eq!(lookup(&p, "a"), Some("1".to_string()));
    assert_eq!(lookup(&p, "b"), Some("2".to_string()));
    assert_eq!(lookup(&p, "c"), None);
}

#[test]
fn required_field_missing_is_a_decoding_error() {
    let p = pairs(&[("a", "1")]);
    assert!(matches!(required(&p, "code"), Err(AuthError::DecodingError(_))));
}

#[test]
fn join_with_separators() {
    let items = vec!["read:user".to_string(), "user:email".to_string()];
    assert_eq!(join_with(&items, " "), "read:user user:email");
    assert_eq!(join_with(&items, ","), "read:user,user:email");
    assert_eq!(join_with(&vec!["one".to_string()], ","), "one");
    assert_eq!(join_with(&Vec::new(), ","), "");
}

#[test]
fn decimal_forms() {
    assert_eq!(u64_decimal(0), "0");
    assert_eq!(u64_decimal(1234567890), "1234567890");
    assert_eq!(u64_decimal(u64::MAX), "18446744073709551615");
    assert_eq!(i64_decimal(-42), "-42");
    assert_eq!(i64_decimal(i64::MIN), "-9223372036854775808");
    assert_eq!(i64_decimal(i64::MAX), "9223372036854775807");
}
