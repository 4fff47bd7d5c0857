use cka_buddy_tui::text::{
    contains_str, ends_with_str, i64_dec, parse_u16, split_whitespace_str, starts_with_str,
    str_eq, to_lowercase_str, trim_str, u64_dec,
};

#[test]
fn trim_removes_surrounding_whitespace() {
    assert_eq!(trim_str("  hello  "), "hello");
    assert_eq!(trim_str("\t x \n"), "x");
    assert_eq!(trim_str(""), "");
    assert_eq!(trim_str("   "), "");
    assert_eq!(trim_str("no-trim"), "no-trim");
}

#[test]
fn contains_finds_exact_runs() {
    assert!(contains_str("kubectl delete ns foo", "delete ns"));
    assert!(contains_str("abc", ""));
    assert!(!contains_str("abc", "abcd"));
    assert!(!contains_str("kubectl", "mkfs"));
    assert!(contains_str("mkfs", "mkfs"));
}

#[test]
fn str_eq_compares_characters() {
    assert!(str_eq("same", "same"));
    assert!(!str_eq("same", "Same"));
    assert!(!str_eq("a", "ab"));
    assert!(str_eq("", ""));
}

#[test]
fn prefix_and_suffix_tests_work() {
    assert!(starts_with_str("/hint please", "/hint"));
    assert!(!starts_with_str("hint", "/hint"));
    assert!(ends_with_str("services", "es"));
    assert!(ends_with_str("pods", "s"));
    assert!(!ends_with_str("pod", "s"));
}

#[test]
fn ascii_lowercase_folds_only_ascii_uppercase() {
    assert_eq!(to_lowercase_str("Networking"), "networking");
    assert_eq!(to_lowercase_str("RBAC-101"), "rbac-101");
    assert_eq!(to_lowercase_str("already"), "already");
}

#[test]
fn decimal_rendering_matches_formatting() {
    assert_eq!(u64_dec(0), "0");
    assert_eq!(u64_dec(7), "7");
    assert_eq!(u64_dec(65535), "65535");
    assert_eq!(u64_dec(1000), "1000");
    assert_eq!(u64_dec(18446744073709551615), "18446744073709551615");
    assert_eq!(i64_dec(0), "0");
    assert_eq!(i64_dec(-1), "-1");
    assert_eq!(i64_dec(-2147483648), "-2147483648");
    assert_eq!(i64_dec(42), "42");
}

#[test]
fn parse_u16_accepts_what_std_accepts() {
    assert_eq!(parse_u16("8080"), Some(8080));
    assert_eq!(parse_u16("+80"), Some(80));
    assert_eq!(parse_u16("65535"), Some(65535));
    assert_eq!(parse_u16("0"), Some(0));
    assert_eq!(parse_u16("007"), Some(7));
    assert_eq!(parse_u16("65536"), None);
    assert_eq!(parse_u16(""), None);
    assert_eq!(parse_u16("+"), None);
    assert_eq!(parse_u16("12a"), None);
    assert_eq!(parse_u16(" 80"), None);
    assert_eq!(parse_u16("-1"), None);
}

#[test]
fn split_whitespace_yields_words() {
    assert_eq!(split_whitespace_str("kubectl get pods"), vec!["kubectl", "get", "pods"]);
    assert_eq!(split_whitespace_str("  a   b  "), vec!["a", "b"]);
    assert!(split_whitespace_str("   ").is_empty());
    assert!(split_whitespace_str("").is_empty());
}
