use emuctl::text::{contains_str, first_token_str, lines_str, trim_str};

#[test]
fn trim_removes_blank_space_at_both_ends() {
    assert_eq!(trim_str("  Pixel_5 \r\n"), "Pixel_5");
    assert_eq!(trim_str("Pixel_5"), "Pixel_5");
    assert_eq!(trim_str("   "), "");
    assert_eq!(trim_str(""), "");
}

#[test]
fn trim_and_tokens_accept_unicode_whitespace() {
    assert_eq!(trim_str("\u{a0}Pixel_5\u{3000}"), "Pixel_5");
    assert_eq!(trim_str("\u{2003}\u{2028}"), "");
    assert_eq!(
        first_token_str("\u{2002}emulator-5554\u{a0}device"),
        Some("emulator-5554".to_string())
    );
}

#[test]
fn first_token_skips_leading_space() {
    assert_eq!(first_token_str("  emulator-5554\tdevice"), Some("emulator-5554".to_string()));
    assert_eq!(first_token_str("one"), Some("one".to_string()));
    assert_eq!(first_token_str(" \t "), None);
    assert_eq!(first_token_str(""), None);
}

#[test]
fn substring_search() {
    assert!(contains_str("emulator-5554 device", "device"));
    assert!(contains_str("emulator-5554 device", ""));
    assert!(!contains_str("emulator-5554 offline", "device"));
    assert!(!contains_str("ab", "abc"));
}

#[test]
fn line_splitting_keeps_every_segment() {
    assert_eq!(lines_str("a\nb"), vec!["a".to_string(), "b".to_string()]);
    assert_eq!(lines_str("a\n"), vec!["a".to_string(), "".to_string()]);
    assert_eq!(lines_str(""), vec!["".to_string()]);
    assert_eq!(
        lines_str("one\r\ntwo"),
        vec!["one\r".to_string(), "two".to_string()]
    );
}
