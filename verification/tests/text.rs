use warden_worker::handlers::accounts::lookup_email;
use warden_worker::text::{
    contains_char, contains_text, parse_bool, parse_i32, parse_i64, strip_prefix,
    trim_text,
};

#[test]
fn trimming_follows_unicode_whitespace() {
    assert_eq!(trim_text("  a b \t\n"), "a b");
    assert_eq!(trim_text("\u{3000}x\u{00a0}"), "x");
    assert_eq!(trim_text(" \u{2028} "), "");
    assert_eq!(trim_text("\u{200b}x"), "\u{200b}x");
    for s in ["", " ", "a", " a ", "\u{85}a\u{1680}", "x\u{202f}y"] {
        assert_eq!(trim_text(s), s.trim());
    }
}

#[test]
fn lowercasing_and_searching() {
    assert_eq!(lookup_email("ÄBC@X.ORG"), "äbc@x.org");
    assert!(contains_char("a@b", '@'));
    assert!(!contains_char("ab", '@'));
    assert!(contains_text("xxUNIQUEyy", "UNIQUE"));
    assert!(contains_text("abc", ""));
    assert!(!contains_text("UNIQU", "UNIQUE"));
    assert_eq!(strip_prefix("Bearer t", "Bearer "), Some("t".to_string()));
    assert_eq!(strip_prefix("Bear", "Bearer "), None);
}

#[test]
fn parsing_matches_std() {
    for s in ["true", "false", "True", "", "1"] {
        assert_eq!(parse_bool(s), s.parse::<bool>().ok(), "{s:?}");
    }
    for s in [
        "0", "-0", "+5", "-", "+", "", "12a", " 1", "9223372036854775807", "9223372036854775808",
        "-9223372036854775808", "-9223372036854775809", "00012", "--1",
    ] {
        assert_eq!(parse_i64(s), s.parse::<i64>().ok(), "{s:?}");
    }
    for s in ["2147483647", "2147483648", "-2147483648", "-2147483649", "42", "x"] {
        assert_eq!(parse_i32(s), s.parse::<i32>().ok(), "{s:?}");
    }
}
