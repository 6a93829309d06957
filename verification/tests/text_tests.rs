use stream_stash::text::{
    chars_of, str_concat, i64_to_string, parse_u64_chars, str_ends_with, str_equal, str_starts_with, trim_str,
    u64_digits,
};

#[test]
fn trims_unicode_white_space() {
    assert_eq!(trim_str("  a b \t\n"), "a b");
    assert_eq!(trim_str("\u{3000}x\u{00A0}"), "x");
    assert_eq!(trim_str("   "), "");
    assert_eq!(trim_str(""), "");
}

#[test]
fn decimal_text_of_integers() {
    assert_eq!(i64_to_string(0), "0");
    assert_eq!(i64_to_string(-42), "-42");
    assert_eq!(i64_to_string(i64::MIN), "-9223372036854775808");
    assert_eq!(i64_to_string(i64::MAX), "9223372036854775807");
    assert_eq!(u64_digits(1200), vec!['1', '2', '0', '0']);
}

#[test]
fn parses_unsigned_numbers() {
    assert_eq!(parse_u64_chars(&chars_of("0")), Some(0));
    assert_eq!(parse_u64_chars(&chars_of("+12")), Some(12));
    assert_eq!(parse_u64_chars(&chars_of("")), None);
    assert_eq!(parse_u64_chars(&chars_of("+")), None);
    assert_eq!(parse_u64_chars(&chars_of("-1")), None);
    assert_eq!(parse_u64_chars(&chars_of("1 ")), None);
    assert_eq!(parse_u64_chars(&chars_of("18446744073709551615")), Some(u64::MAX));
    assert_eq!(parse_u64_chars(&chars_of("18446744073709551616")), None);
}

#[test]
fn prefixes_suffixes_and_equality() {
    assert!(str_starts_with("max-age=5", "max-age="));
    assert!(!str_starts_with("max", "max-age="));
    assert!(str_ends_with("jane@gmail.com", "@gmail.com"));
    assert!(!str_ends_with("jane@gmail.co", "@gmail.com"));
    assert!(str_equal("ü", "ü"));
    assert!(!str_equal("a", "A"));
    assert_eq!(str_concat("ab", "cd"), "abcd");
}
