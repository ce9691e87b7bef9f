use wuspotify_muter::text::{
    eq_ignore_ascii_case, parse_u32, parse_u64, split_tab_fields, starts_with, str_eq, trim_str,
};

#[test]
fn reads_unsigned_numbers_like_from_str() {
    assert_eq!(parse_u64("0"), Some(0));
    assert_eq!(parse_u64("+42"), Some(42));
    assert_eq!(parse_u64("007"), Some(7));
    assert_eq!(parse_u64("18446744073709551615"), Some(u64::MAX));
    assert_eq!(parse_u64("18446744073709551616"), None);
    assert_eq!(parse_u64("99999999999999999999999"), None);
    assert_eq!(parse_u64(""), None);
    assert_eq!(parse_u64("+"), None);
    assert_eq!(parse_u64("-1"), None);
    assert_eq!(parse_u64("1 "), None);
    assert_eq!(parse_u64("1a"), None);
    assert_eq!(parse_u32("4294967295"), Some(u32::MAX));
    assert_eq!(parse_u32("4294967296"), None);
    for s in ["0", "+9", "123", "4294967295", "4294967296", "", "-0", "x"] {
        assert_eq!(parse_u32(s), s.parse::<u32>().ok());
        assert_eq!(parse_u64(s), s.parse::<u64>().ok());
    }
}

#[test]
fn trims_unicode_white_space() {
    assert_eq!(trim_str("  a b \t\n"), "a b");
    assert_eq!(trim_str("\u{2003}x\u{3000}"), "x");
    assert_eq!(trim_str("\u{85}y\u{a0}"), "y");
    assert_eq!(trim_str("   "), "");
    assert_eq!(trim_str(""), "");
    for s in [" a ", "\u{200b}z", "\u{feff}w ", "\u{180e}q", "\u{2028}é\u{2029}"] {
        assert_eq!(trim_str(s), s.trim());
    }
}

#[test]
fn splits_on_tabs() {
    assert_eq!(split_tab_fields(""), vec![""]);
    assert_eq!(split_tab_fields("a\tb"), vec!["a", "b"]);
    assert_eq!(split_tab_fields("\ta\t\t"), vec!["", "a", "", ""]);
    for s in ["x", "é\tü", "\t", "a\t\tb\tc"] {
        let expected: Vec<&str> = s.split('\t').collect();
        assert_eq!(split_tab_fields(s), expected);
    }
}

#[test]
fn compares_texts() {
    assert!(starts_with("spotify:ad:1", "spotify:ad:"));
    assert!(!starts_with("spot", "spotify"));
    assert!(starts_with("abc", ""));
    assert!(eq_ignore_ascii_case("AdVeRtIsEmEnT", "advertisement"));
    assert!(!eq_ignore_ascii_case("Ä", "ä"));
    assert!(eq_ignore_ascii_case("Ä", "Ä"));
    assert!(str_eq("system", "system"));
    assert!(!str_eq("system", "systems"));
}
