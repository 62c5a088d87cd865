use circle::text::{contains, decimal_string, ends_with, eq_str, find, is_whitespace, starts_with, strip_prefix, trim};

#[test]
fn trim_matches_std_trim() {
    for s in ["", "   ", "  Ada  ", "\t\nBob\r\n", "\u{3000}名前\u{a0}", "x", " a b "] {
        assert_eq!(trim(s), s.trim());
    }
}

#[test]
fn whitespace_matches_std() {
    for v in 0u32..0x3100 {
        if let Some(c) = char::from_u32(v) {
            assert_eq!(is_whitespace(c), c.is_whitespace(), "{:x}", v);
        }
    }
}

#[test]
fn prefixes_and_suffixes() {
    assert!(starts_with("Bearer abc", "Bearer "));
    assert!(!starts_with("Bear", "Bearer "));
    assert!(ends_with("clip.webm", ".webm"));
    assert!(!ends_with("clip.webp", ".webm"));
    assert_eq!(strip_prefix("Bearer tok", "Bearer "), Some("tok"));
    assert_eq!(strip_prefix("Basic tok", "Bearer "), None);
    assert!(eq_str("abc", "abc"));
    assert!(!eq_str("abc", "abd"));
    assert!(!eq_str("abc", "ab"));
}

#[test]
fn search() {
    assert!(contains("HTTP 403", "403"));
    assert!(!contains("HTTP 401", "403"));
    assert_eq!(find("https://a.b/c", "://"), Some(5));
    assert_eq!(find("abc", "x"), None);
    assert_eq!(find("aaa", "aa"), Some(0));
}

#[test]
fn decimal_rendering() {
    assert_eq!(decimal_string(0), "0");
    assert_eq!(decimal_string(7), "7");
    assert_eq!(decimal_string(1700043200), "1700043200");
    assert_eq!(decimal_string(u64::MAX), u64::MAX.to_string());
}
