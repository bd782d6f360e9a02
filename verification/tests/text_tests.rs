use akinator::numtext::{decimal_string, parse_usize};
use akinator::text::{chars_contain, chars_eq_str, chars_of, normalize};

#[test]
fn decimal_rendering() {
    assert_eq!(decimal_string(0), "0");
    assert_eq!(decimal_string(7), "7");
    assert_eq!(decimal_string(1234), "1234");
    assert_eq!(decimal_string(usize::MAX), usize::MAX.to_string());
}

#[test]
fn usize_parsing() {
    assert_eq!(parse_usize("12"), Some(12));
    assert_eq!(parse_usize("+12"), Some(12));
    assert_eq!(parse_usize("007"), Some(7));
    assert_eq!(parse_usize(""), None);
    assert_eq!(parse_usize("+"), None);
    assert_eq!(parse_usize("-1"), None);
    assert_eq!(parse_usize("1.5"), None);
    assert_eq!(parse_usize(" 1"), None);
    assert_eq!(parse_usize("٣"), None);
    assert_eq!(parse_usize(&usize::MAX.to_string()), Some(usize::MAX));
    assert_eq!(parse_usize("99999999999999999999999999"), None);
}

#[test]
fn usize_parsing_agrees_with_std() {
    for s in ["0", "+0", "++1", "+-1", "42", "18446744073709551616", "4294967296", "abc", "1_000"] {
        assert_eq!(parse_usize(s), s.parse::<usize>().ok(), "input {s}");
    }
}

#[test]
fn normalizing() {
    assert_eq!(normalize("  HeLLo\t"), "hello".chars().collect::<Vec<char>>());
    assert_eq!(normalize("\u{3000}ÉCOLE Z\u{85}"), "École z".chars().collect::<Vec<char>>().iter().map(|c| if c.is_ascii_uppercase() { c.to_ascii_lowercase() } else { *c }).collect::<Vec<char>>());
    assert_eq!(normalize("   "), Vec::<char>::new());
}

#[test]
fn char_matching() {
    let v = chars_of("abcabd");
    assert!(chars_contain(&v, &chars_of("abd")));
    assert!(!chars_contain(&v, &chars_of("abe")));
    assert!(chars_contain(&v, &[]));
    assert!(chars_eq_str(&chars_of("日本"), "日本"));
    assert!(!chars_eq_str(&chars_of("日本"), "日"));
}
