use beme_lib::text::{
    bytes_equal, contains, decimal_len, find_byte, matches_at, push_decimal,
    push_zero_padded, starts_with, str_contains, str_equals, strip_trailing_byte, trim_ascii,
};

#[test]
fn bytes_are_searched_and_compared() {
    assert!(bytes_equal(b"abc", b"abc"));
    assert!(!bytes_equal(b"abc", b"abd"));
    assert!(!bytes_equal(b"abc", b"ab"));
    assert!(bytes_equal(b"", b""));
    assert!(matches_at(b"hello", b"llo", 2));
    assert!(!matches_at(b"hello", b"llo", 3));
    assert!(matches_at(b"hello", b"", 5));
    assert!(!matches_at(b"hello", b"", 6));
    assert!(starts_with(b"data: x", b"data:"));
    assert!(!starts_with(b"dat", b"data:"));
    assert!(contains(b"xxprevious_response_not_foundyy", b"previous_response_not_found"));
    assert!(contains(b"abc", b"c"));
    assert!(contains(b"abc", b""));
    assert!(contains(b"", b""));
    assert!(!contains(b"abc", b"abcd"));
    assert!(!contains(b"ababab", b"abb"));
    assert_eq!(find_byte(b"a\nb\n", b'\n'), Some(1));
    assert_eq!(find_byte(b"ab", b'\n'), None);
    assert_eq!(find_byte(b"", b'\n'), None);
}

#[test]
fn strings_are_compared_by_content() {
    assert!(str_equals("[DONE]", "[DONE]"));
    assert!(!str_equals("[DONE]", "[DONE] "));
    assert!(str_equals("grüß", "grüß"));
    assert!(str_contains("a previous_response_not_found b", "previous_response_not_found"));
    assert!(!str_contains("previous_response_found", "previous_response_not_found"));
}

#[test]
fn lines_are_trimmed() {
    assert_eq!(strip_trailing_byte(b"line\r\r", b'\r'), b"line");
    assert_eq!(strip_trailing_byte(b"\r", b'\r'), b"");
    assert_eq!(strip_trailing_byte(b"a\rb", b'\r'), b"a\rb");
    assert_eq!(trim_ascii(b" \t\r\n x y \x0b\x0c "), b"x y");
    assert_eq!(trim_ascii(b"   "), b"");
    assert_eq!(trim_ascii(b""), b"");
    assert_eq!(trim_ascii(b"\xa0x"), b"\xa0x");
}

#[test]
fn numbers_are_written_in_decimal() {
    let decimal = |n: u64| {
        let mut out = String::new();
        push_decimal(&mut out, n);
        out
    };
    assert_eq!(decimal(0), "0");
    assert_eq!(decimal(9), "9");
    assert_eq!(decimal(10), "10");
    assert_eq!(decimal(1234567890), "1234567890");
    assert_eq!(decimal(u64::MAX), "18446744073709551615");
    assert_eq!(decimal_len(0), 1);
    assert_eq!(decimal_len(999), 3);
    assert_eq!(decimal_len(1000), 4);
    assert_eq!(decimal_len(u64::MAX), 20);
    let mut out = String::from("x");
    push_decimal(&mut out, 42);
    push_zero_padded(&mut out, 7, 3);
    push_zero_padded(&mut out, 12345, 2);
    push_zero_padded(&mut out, 0, 0);
    assert_eq!(out, "x42007123450");
}
