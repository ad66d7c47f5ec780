use speech_to_text::text::{
    contains, decimal_string, is_blank, is_whitespace, starts_with, trim, word_count,
};
use speech_to_text::version::{is_newer, parse_components, release_version, update_for_release};

#[test]
fn newer_compares_numerically() {
    assert!(is_newer("1.10.0", "1.9.0"));
    assert!(!is_newer("1.9.0", "1.10.0"));
    assert!(is_newer("2.0", "1.99.99"));
}

#[test]
fn newer_pads_missing_components() {
    assert!(!is_newer("1.2", "1.2.0"));
    assert!(!is_newer("1.2.0", "1.2"));
    assert!(is_newer("1.2.1", "1.2"));
}

#[test]
fn newer_is_irreflexive_and_asymmetric() {
    for (a, b) in [("1.0.0", "1.0.1"), ("0.9", "0.10"), ("3", "3.0.0")] {
        assert!(!is_newer(a, a));
        assert!(!(is_newer(a, b) && is_newer(b, a)));
    }
}

#[test]
fn newer_is_transitive_on_examples() {
    assert!(is_newer("1.3", "1.2"));
    assert!(is_newer("1.2", "1.1.9"));
    assert!(is_newer("1.3", "1.1.9"));
}

#[test]
fn suffixes_are_dropped() {
    assert_eq!(parse_components("1.0-beta.2+build"), vec![1, 0, 2]);
    assert!(!is_newer("1.2.0-rc1", "1.2.0"));
}

#[test]
fn oversized_components_read_as_zero() {
    assert_eq!(parse_components("99999999999999999999999.1"), vec![0, 1]);
    assert_eq!(parse_components(""), vec![0]);
}

#[test]
fn tags_lose_leading_v() {
    assert_eq!(release_version("v1.2.3"), "1.2.3");
    assert_eq!(release_version("vV2.0"), "2.0");
    assert_eq!(release_version("Vv2.0"), "v2.0");
    assert_eq!(release_version("1.0"), "1.0");
}

#[test]
fn update_offered_only_for_newer_release() {
    let info = update_for_release("v1.4.0", "1.3.9").expect("newer release");
    assert_eq!(info.latest_version, "1.4.0");
    assert!(update_for_release("v1.3.9", "1.3.9").is_none());
    assert!(update_for_release("v1.3.0", "1.3.9").is_none());
}

#[test]
fn whitespace_matches_std() {
    for c in ['\u{0}', ' ', '\t', '\n', '\u{0B}', '\u{0C}', '\r', '\u{85}', '\u{A0}', '\u{1680}',
        '\u{2000}', '\u{200A}', '\u{200B}', '\u{2028}', '\u{2029}', '\u{202F}', '\u{205F}',
        '\u{3000}', 'a', 'Ω', '\u{FEFF}']
    {
        assert_eq!(is_whitespace(c), c.is_whitespace(), "{:?}", c);
    }
}

#[test]
fn trim_matches_std() {
    for s in ["", "   ", "  a b  ", "\u{3000}x\u{A0}", "abc", "\n\tline\r\n"] {
        assert_eq!(trim(s), s.trim());
        assert_eq!(is_blank(s), s.trim().is_empty());
    }
}

#[test]
fn substring_and_prefix() {
    assert!(contains("hello world", "o w"));
    assert!(!contains("hello", "hello!"));
    assert!(contains("abc", ""));
    assert!(starts_with("Recording…", "Recording"));
    assert!(!starts_with("Rec", "Recording"));
}

#[test]
fn decimals_render() {
    assert_eq!(decimal_string(0), "0");
    assert_eq!(decimal_string(1234567890), "1234567890");
    assert_eq!(decimal_string(u64::MAX), u64::MAX.to_string());
}

#[test]
fn word_count_examples() {
    assert_eq!(word_count("one"), 1);
    assert_eq!(word_count("one  two\tthree\nfour"), 4);
}
