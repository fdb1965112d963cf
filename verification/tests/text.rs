use livewall::text::{dash_line, decimal_text, pad_right, parse_u32_decimal, str_contains, str_eq, trim, first_piece};

#[test]
fn equality_and_search() {
    assert!(str_eq("abc", "abc"));
    assert!(!str_eq("abc", "abd"));
    assert!(!str_eq("ab", "abc"));
    assert!(str_contains("killall: No matching processes", "No matching"));
    assert!(!str_contains("abc", "abd"));
    assert!(str_contains("abc", ""));
    assert!(!str_contains("", "a"));
}

#[test]
fn padding_counts_characters() {
    assert_eq!(pad_right("ab", 5), "ab   ");
    assert_eq!(pad_right("abcdef", 3), "abcdef");
    assert_eq!(pad_right("é", 3), "é  ");
    assert_eq!(dash_line(3), "---");
}

#[test]
fn trimming_and_pieces() {
    assert_eq!(trim(" \t14.5\n"), "14.5");
    assert_eq!(trim("\u{a0}x y\u{2003}"), "x y");
    assert_eq!(trim("   "), "");
    assert_eq!(first_piece("14.5.1", '.'), "14");
    assert_eq!(first_piece("14", '.'), "14");
    assert_eq!(first_piece(".5", '.'), "");
}

#[test]
fn parsing_like_std() {
    for s in ["0", "14", "+15", "007", "4294967295", "4294967296", "", "+", "-1", "1a", "99999999999", " 1"] {
        assert_eq!(parse_u32_decimal(s), s.parse::<u32>().ok(), "{:?}", s);
    }
}

#[test]
fn decimal_text_writes_digits() {
    assert_eq!(decimal_text(0), "0");
    assert_eq!(decimal_text(9), "9");
    assert_eq!(decimal_text(10), "10");
    assert_eq!(decimal_text(1712345678000), "1712345678000");
    assert_eq!(decimal_text(u64::MAX), "18446744073709551615");
}
