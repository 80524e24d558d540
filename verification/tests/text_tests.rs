use jp::text::{ascii_lower, ascii_upper, make_spaces, parse_u64, str_eq, to_wide, trim_spaces};

fn std_wide(s: &str) -> Vec<u16> {
    s.encode_utf16().chain(std::iter::once(0)).collect()
}

#[test]
fn to_wide_simple() {
    assert_eq!(to_wide(""), vec![0]);
    assert_eq!(to_wide("A"), vec![65, 0]);
    assert_eq!(to_wide("JP Reminder"), std_wide("JP Reminder"));
}

#[test]
fn to_wide_basic_multilingual() {
    assert_eq!(to_wide("あ"), vec![0x3042, 0]);
    assert_eq!(to_wide("选择"), std_wide("选择"));
}

#[test]
fn to_wide_surrogate_pairs() {
    assert_eq!(to_wide("\u{1F600}"), vec![0xD83D, 0xDE00, 0]);
    assert_eq!(to_wide("a\u{10000}z"), std_wide("a\u{10000}z"));
}

#[test]
fn str_eq_cases() {
    assert!(str_eq("", ""));
    assert!(str_eq("abc", "abc"));
    assert!(str_eq("日本語", "日本語"));
    assert!(!str_eq("abc", "abd"));
    assert!(!str_eq("abc", "ab"));
    assert!(!str_eq("あ", "ア"));
}

#[test]
fn case_mapping() {
    assert_eq!(ascii_upper("ka"), "KA");
    assert_eq!(ascii_upper("Mixed-12 z"), "MIXED-12 Z");
    assert_eq!(ascii_lower("KA"), "ka");
    assert_eq!(ascii_lower("Mixed-12 Z"), "mixed-12 z");
    // non-ASCII letters keep their case
    assert_eq!(ascii_upper("día"), "DíA");
    assert_eq!(ascii_lower("Á"), "Á");
}

#[test]
fn trimming() {
    assert_eq!(trim_spaces("  hello  "), "hello");
    assert_eq!(trim_spaces("\n\tこんにちは \r\n"), "こんにちは");
    assert_eq!(trim_spaces("a b"), "a b");
    assert_eq!(trim_spaces("   "), "");
    assert_eq!(trim_spaces(""), "");
}

#[test]
fn parse_u64_values() {
    assert_eq!(parse_u64("0"), Some(0));
    assert_eq!(parse_u64("30"), Some(30));
    assert_eq!(parse_u64("007"), Some(7));
    assert_eq!(parse_u64("18446744073709551615"), Some(u64::MAX));
}

#[test]
fn parse_u64_leading_plus() {
    assert_eq!(parse_u64("+5"), Some(5));
    assert_eq!(parse_u64("+0"), Some(0));
    assert_eq!(parse_u64("+18446744073709551615"), Some(u64::MAX));
    assert_eq!(parse_u64("+"), None);
    assert_eq!(parse_u64("++1"), None);
    assert_eq!(parse_u64("5+"), None);
}

#[test]
fn parse_u64_rejects() {
    assert_eq!(parse_u64(""), None);
    assert_eq!(parse_u64("12a"), None);
    assert_eq!(parse_u64(" 5"), None);
    assert_eq!(parse_u64("-1"), None);
    assert_eq!(parse_u64("18446744073709551616"), None);
    assert_eq!(parse_u64("99999999999999999999999"), None);
}

#[test]
fn spaces_builder() {
    assert_eq!(make_spaces(0), "");
    assert_eq!(make_spaces(4), "    ");
}
