use jelly_stats::text::{
    contains_text, decimal_string, parse_u32, parse_u64, text_eq, trim_leading_slashes,
};

#[test]
fn parse_u64_reads_plain_numbers() {
    assert_eq!(parse_u64("0"), Some(0));
    assert_eq!(parse_u64("42"), Some(42));
    assert_eq!(parse_u64("007"), Some(7));
    assert_eq!(parse_u64("+15"), Some(15));
    assert_eq!(parse_u64("18446744073709551615"), Some(u64::MAX));
}

#[test]
fn parse_u64_refuses_what_std_refuses() {
    assert_eq!(parse_u64(""), None);
    assert_eq!(parse_u64("+"), None);
    assert_eq!(parse_u64("-1"), None);
    assert_eq!(parse_u64("++1"), None);
    assert_eq!(parse_u64(" 1"), None);
    assert_eq!(parse_u64("1 "), None);
    assert_eq!(parse_u64("1,000"), None);
    assert_eq!(parse_u64("18446744073709551616"), None);
}

#[test]
fn parse_u64_agrees_with_std() {
    for s in ["", "0", "9", "+9", "-0", "12a", "99999999999999999999", "4294967296", "٣"] {
        assert_eq!(parse_u64(s), s.parse::<u64>().ok(), "{s:?}");
        assert_eq!(parse_u32(s), s.parse::<u32>().ok(), "{s:?}");
    }
}

#[test]
fn parse_u32_bounds() {
    assert_eq!(parse_u32("4294967295"), Some(u32::MAX));
    assert_eq!(parse_u32("4294967296"), None);
}

#[test]
fn decimal_string_writes_numbers() {
    assert_eq!(decimal_string(0), "0");
    assert_eq!(decimal_string(7), "7");
    assert_eq!(decimal_string(10), "10");
    assert_eq!(decimal_string(1234567890), "1234567890");
    assert_eq!(decimal_string(u64::MAX), u64::MAX.to_string());
}

#[test]
fn decimal_roundtrip_on_values() {
    for n in [0u64, 1, 9, 10, 99, 100, 65535, u64::MAX - 1, u64::MAX] {
        assert_eq!(parse_u64(&decimal_string(n)), Some(n));
    }
}

#[test]
fn contains_text_finds_substrings() {
    assert!(contains_text("open now", "open now"));
    assert!(contains_text("conversations open now!", "open now"));
    assert!(contains_text("anything", ""));
    assert!(!contains_text("open", "open now"));
    assert!(!contains_text("Open Now", "open now"));
    assert!(contains_text("ééé awaiting reply", "awaiting reply"));
}

#[test]
fn text_eq_compares_characters() {
    assert!(text_eq("Endpoint not found", "Endpoint not found"));
    assert!(!text_eq("Endpoint not found", "Endpoint not found."));
    assert!(text_eq("", ""));
}

#[test]
fn trim_leading_slashes_drops_all_leading_slashes() {
    assert_eq!(trim_leading_slashes("/conversations"), "conversations");
    assert_eq!(trim_leading_slashes("///a/b"), "a/b");
    assert_eq!(trim_leading_slashes("a/"), "a/");
    assert_eq!(trim_leading_slashes("///"), "");
}
