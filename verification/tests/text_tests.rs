use doc_browser::text::{str_eq, trim_str};

#[test]
fn str_eq_compares_by_characters() {
    assert!(str_eq("", ""));
    assert!(str_eq("abc", "abc"));
    assert!(!str_eq("abc", "abd"));
    assert!(!str_eq("abc", "abcd"));
    assert!(str_eq("naïve", "naïve"));
}

#[test]
fn trim_removes_surrounding_whitespace_only() {
    assert_eq!(trim_str("  a b  "), "a b");
    assert_eq!(trim_str("\t/tmp/x\n"), "/tmp/x");
    assert_eq!(trim_str("untouched"), "untouched");
    assert_eq!(trim_str("   "), "");
    assert_eq!(trim_str(""), "");
}
