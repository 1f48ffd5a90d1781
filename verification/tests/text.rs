use formanator::text::{chars_of, parse_u64, str_contains, u64_to_decimal};

#[test]
fn decimal_of_small_and_large_numbers() {
    assert_eq!(u64_to_decimal(0), "0");
    assert_eq!(u64_to_decimal(7), "7");
    assert_eq!(u64_to_decimal(10), "10");
    assert_eq!(u64_to_decimal(201), "201");
    assert_eq!(u64_to_decimal(u64::MAX), "18446744073709551615");
}

#[test]
fn parse_accepts_digits_and_plus_sign() {
    assert_eq!(parse_u64("0"), Some(0));
    assert_eq!(parse_u64("25"), Some(25));
    assert_eq!(parse_u64("+25"), Some(25));
    assert_eq!(parse_u64("007"), Some(7));
    assert_eq!(parse_u64("18446744073709551615"), Some(u64::MAX));
}

#[test]
fn parse_rejects_what_std_rejects() {
    for s in ["", "+", "-", "-1", "1a", " 1", "1 ", "1.0", "18446744073709551616", "99999999999999999999x"] {
        assert_eq!(parse_u64(s), s.parse::<u64>().ok(), "input {:?}", s);
        assert_eq!(parse_u64(s), None, "input {:?}", s);
    }
}

#[test]
fn parse_agrees_with_std_on_samples() {
    for s in ["1", "+0", "42", "0000", "4294967296", "18446744073709551614", "+18446744073709551615"] {
        assert_eq!(parse_u64(s), s.parse::<u64>().ok(), "input {:?}", s);
    }
}

#[test]
fn decimal_then_parse_round_trips() {
    for n in [0u64, 1, 9, 10, 99, 100, 12345, 4294967295, u64::MAX - 1, u64::MAX] {
        assert_eq!(parse_u64(&u64_to_decimal(n)), Some(n));
    }
}

#[test]
fn contains_finds_substrings() {
    assert!(str_contains("The JWT token is invalid.", "JWT token is invalid"));
    assert!(str_contains("abc", ""));
    assert!(str_contains("abc", "abc"));
    assert!(!str_contains("ab", "abc"));
    assert!(!str_contains("JWT token is expired", "JWT token is invalid"));
    assert!(str_contains("ééx", "éx"));
}

#[test]
fn chars_in_order() {
    assert_eq!(chars_of("añb"), vec!['a', 'ñ', 'b']);
}
