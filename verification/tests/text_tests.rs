use axum_crud_lib::text::{starts_with, str_eq, strip_prefix, utf8_bytes};

#[test]
fn string_equality() {
    assert!(str_eq("abc", "abc"));
    assert!(!str_eq("abc", "abd"));
    assert!(!str_eq("abc", "ab"));
    assert!(str_eq("", ""));
}

#[test]
fn prefixes() {
    assert!(starts_with("country_x", "country"));
    assert!(!starts_with("count", "country"));
    assert!(starts_with("ü", ""));
    assert_eq!(strip_prefix("0x1f", "0x"), Some("1f"));
    assert_eq!(strip_prefix("0y1f", "0x"), None);
    assert_eq!(strip_prefix("0xé", "0x"), Some("é"));
}

#[test]
fn bytes_of_text() {
    assert_eq!(utf8_bytes("aé"), vec![0x61, 0xc3, 0xa9]);
}
