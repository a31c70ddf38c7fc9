use lib::text::{chars_of, is_whitespace, parse_unsigned_range, push_decimal, str_equal, trim_range};

#[test]
fn string_equality() {
    assert!(str_equal("abc", "abc"));
    assert!(!str_equal("abc", "abd"));
    assert!(!str_equal("abc", "ab"));
    assert!(str_equal("", ""));
    assert!(str_equal("héllo", "héllo"));
}

#[test]
fn chars_in_order() {
    assert_eq!(chars_of("aé€"), vec!['a', 'é', '€']);
}

#[test]
fn whitespace_set() {
    for c in [' ', '\t', '\n', '\r', '\u{0b}', '\u{0c}', '\u{85}', '\u{a0}', '\u{1680}', '\u{2000}', '\u{200a}', '\u{2028}', '\u{2029}', '\u{202f}', '\u{205f}', '\u{3000}'] {
        assert!(is_whitespace(c));
        assert_eq!(is_whitespace(c), c.is_whitespace());
    }
    for c in ['a', '0', ',', '\u{200b}', '\u{feff}'] {
        assert!(!is_whitespace(c));
        assert_eq!(is_whitespace(c), c.is_whitespace());
    }
    for u in 0u32..0x3100 {
        if let Some(c) = char::from_u32(u) {
            assert_eq!(is_whitespace(c), c.is_whitespace());
        }
    }
}

#[test]
fn trimming_ranges() {
    let v: Vec<char> = "  ab c \t".chars().collect();
    assert_eq!(trim_range(&v, 0, v.len()), (2, 6));
    assert_eq!(trim_range(&v, 0, 2), (2, 2));
}

#[test]
fn unsigned_parsing() {
    let v: Vec<char> = "+42".chars().collect();
    assert_eq!(parse_unsigned_range(&v, 0, 3, u64::MAX), Some(42));
    assert_eq!(parse_unsigned_range(&v, 0, 1, u64::MAX), None);
    assert_eq!(parse_unsigned_range(&v, 1, 3, 41), None);
    let big: Vec<char> = "18446744073709551615".chars().collect();
    assert_eq!(parse_unsigned_range(&big, 0, big.len(), u64::MAX), Some(u64::MAX));
    let over: Vec<char> = "18446744073709551616".chars().collect();
    assert_eq!(parse_unsigned_range(&over, 0, over.len(), u64::MAX), None);
    let empty: Vec<char> = Vec::new();
    assert_eq!(parse_unsigned_range(&empty, 0, 0, 10), None);
}

#[test]
fn decimal_output() {
    let mut s = String::from("x=");
    push_decimal(&mut s, 0);
    push_decimal(&mut s, 1203);
    assert_eq!(s, "x=01203");
}
