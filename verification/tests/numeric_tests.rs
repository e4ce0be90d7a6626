use axum_crud_lib::numeric::{char_digit, i32_to_decimal, parse_i32_radix, parse_u16};

#[test]
fn decimal_text_of_numbers() {
    assert_eq!(i32_to_decimal(0), "0");
    assert_eq!(i32_to_decimal(7), "7");
    assert_eq!(i32_to_decimal(10), "10");
    assert_eq!(i32_to_decimal(1234567), "1234567");
    assert_eq!(i32_to_decimal(-1), "-1");
    assert_eq!(i32_to_decimal(-905), "-905");
    assert_eq!(i32_to_decimal(i32::MAX), "2147483647");
    assert_eq!(i32_to_decimal(i32::MIN), "-2147483648");
}

#[test]
fn decimal_text_matches_to_string() {
    for x in [0, 1, -1, 9, 10, 99, 100, -100, 65535, i32::MAX, i32::MIN, 123456789, -987654321] {
        assert_eq!(i32_to_decimal(x), x.to_string());
    }
}

#[test]
fn decimal_roundtrip_on_values() {
    for x in [0, 5, -5, 42, -42, 1000000, i32::MAX, i32::MIN, i32::MIN + 1] {
        assert_eq!(parse_i32_radix(&i32_to_decimal(x), 10), Some(x));
    }
}

#[test]
fn parse_decimal_accepts_signs() {
    assert_eq!(parse_i32_radix("+15", 10), Some(15));
    assert_eq!(parse_i32_radix("-15", 10), Some(-15));
    assert_eq!(parse_i32_radix("007", 10), Some(7));
}

#[test]
fn parse_decimal_rejects_malformed() {
    assert_eq!(parse_i32_radix("", 10), None);
    assert_eq!(parse_i32_radix("+", 10), None);
    assert_eq!(parse_i32_radix("-", 10), None);
    assert_eq!(parse_i32_radix("1a", 10), None);
    assert_eq!(parse_i32_radix(" 1", 10), None);
    assert_eq!(parse_i32_radix("--1", 10), None);
    assert_eq!(parse_i32_radix("１", 10), None);
}

#[test]
fn parse_decimal_range() {
    assert_eq!(parse_i32_radix("2147483647", 10), Some(i32::MAX));
    assert_eq!(parse_i32_radix("2147483648", 10), None);
    assert_eq!(parse_i32_radix("-2147483648", 10), Some(i32::MIN));
    assert_eq!(parse_i32_radix("-2147483649", 10), None);
    assert_eq!(parse_i32_radix("99999999999999999999999", 10), None);
}

#[test]
fn parse_hex_like_from_str_radix() {
    for s in ["1f", "FF", "-80000000", "7fffffff", "80000000", "+a", "g", "", "-", "0", "-0", "DeadBeef", "12x"] {
        assert_eq!(parse_i32_radix(s, 16), i32::from_str_radix(s, 16).ok(), "{}", s);
    }
}

#[test]
fn parse_u16_like_std() {
    for s in ["0", "65535", "65536", "+80", "-1", "-0", "", "8080", "80a"] {
        assert_eq!(parse_u16(s), s.parse::<u16>().ok(), "{}", s);
    }
}

#[test]
fn digits_of_radixes() {
    assert_eq!(char_digit('7', 10), Some(7));
    assert_eq!(char_digit('a', 10), None);
    assert_eq!(char_digit('a', 16), Some(10));
    assert_eq!(char_digit('F', 16), Some(15));
    assert_eq!(char_digit('z', 36), Some(35));
    assert_eq!(char_digit('-', 36), None);
}
