use quickpeek::text::{
    decimal_string, ends_with_str, eq_ignore_ascii_case_str, is_absolute_str, path_join_str,
    starts_with_str, strip_suffix_str, trim_str,
};

#[test]
fn trim_matches_std() {
    for s in ["", "   ", " a ", "\u{a0}x\u{3000}", "\t\n a b \r", "abc", "\u{85}q\u{2028}", "\u{200b}z"] {
        assert_eq!(trim_str(s), s.trim());
    }
}

#[test]
fn affixes() {
    assert!(ends_with_str("a - Dolphin", " - Dolphin"));
    assert!(!ends_with_str("Dolphin", " - Dolphin"));
    assert!(starts_with_str("~/x", "~/"));
    assert!(!starts_with_str("~", "~/"));
    assert_eq!(strip_suffix_str("/d \u{2014} Dolphin", " \u{2014} Dolphin"), Some("/d"));
    assert_eq!(strip_suffix_str("/d", " \u{2014} Dolphin"), None);
    assert!(eq_ignore_ascii_case_str("DoLpHiN", "dolphin"));
    assert!(!eq_ignore_ascii_case_str("d\u{f6}lphin", "dolphin"));
}

#[test]
fn decimal() {
    assert_eq!(decimal_string(0), "0");
    assert_eq!(decimal_string(9), "9");
    assert_eq!(decimal_string(10), "10");
    assert_eq!(decimal_string(1234567890), "1234567890");
    assert_eq!(decimal_string(u64::MAX), u64::MAX.to_string());
}

#[test]
fn joins() {
    assert!(is_absolute_str("/a"));
    assert!(!is_absolute_str("a/"));
    assert!(!is_absolute_str(""));
    assert_eq!(path_join_str("/a", "b"), "/a/b");
    assert_eq!(path_join_str("/a/", "b"), "/a/b");
    assert_eq!(path_join_str("/a", "/b"), "/b");
    assert_eq!(path_join_str("", "b"), "b");
    for (a, b) in [("/a", "b"), ("/a/", "b/c"), ("x", "/y"), ("", "q"), ("/a", "")] {
        let expected = std::path::Path::new(a).join(b);
        assert_eq!(path_join_str(a, b), expected.to_str().unwrap());
    }
}
