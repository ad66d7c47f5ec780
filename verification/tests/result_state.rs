use speech_to_text::result_state::{word_count, wpm, wpm_for_secs, ResultState, ResultStats};

#[test]
fn word_count_handles_unicode_and_whitespace() {
    assert_eq!(word_count(""), 0);
    assert_eq!(word_count("   "), 0);
    assert_eq!(word_count("hello world"), 2);
    assert_eq!(word_count("  hello\n world\tthree  "), 3);
    assert_eq!(word_count("καλημέρα κόσμε"), 2);
}

#[test]
fn wpm_skips_short_or_tiny_samples() {
    assert_eq!(wpm(2, 60_000), None); // too few words
    assert_eq!(wpm(100, 500), None); // too short
    assert_eq!(wpm(120, 60_000), Some(120));
    assert_eq!(wpm(96, 60_000), Some(96));
}

#[test]
fn active_text_tracks_variants() {
    let mut st = ResultState::from_text("raw text here".to_string(), 10_000);
    assert!(st.is_raw_active());
    assert_eq!(st.active_text(), "raw text here");

    let idx = st.push_variant("Improved", "polished text");
    assert_eq!(idx, 1);
    assert_eq!(st.active_text(), "polished text");
    assert!(!st.is_raw_active());

    st.set_active(0);
    assert_eq!(st.active_text(), "raw text here");

    // Out-of-range clamps to last valid.
    st.set_active(99);
    assert_eq!(st.active, 1);
}

#[test]
fn polished_text_prefers_active_then_latest() {
    let mut st = ResultState::from_text("raw".to_string(), 5_000);
    assert_eq!(st.polished_text(), None);
    st.push_variant("Short", "s");
    st.push_variant("Formal", "f");
    assert_eq!(st.polished_text(), Some("f")); // active = last
    st.set_active(0);
    assert_eq!(st.polished_text(), Some("f")); // viewing raw, keep latest
}

#[test]
fn selector_labels_prepend_raw() {
    let mut st = ResultState::from_text("raw".to_string(), 5_000);
    st.push_variant("Short", "s");
    assert_eq!(st.selector_labels("Raw"), vec!["Raw", "Short"]);
}

#[test]
fn stats_compute_from_raw() {
    let st = ResultState::from_text("one two three four five".to_string(), 30_000);
    assert_eq!(st.stats.words, 5);
    assert_eq!(st.stats.wpm, Some(10));
}

#[test]
fn wpm_rounds_to_nearest() {
    // 7 words in 9 s: 46.67 wpm.
    assert_eq!(wpm(7, 9_000), Some(47));
    // 3 words in 8 s: 22.5 wpm rounds away from zero.
    assert_eq!(wpm(3, 8_000), Some(23));
    // Exactly one second is long enough.
    assert_eq!(wpm(3, 1_000), Some(180));
    assert_eq!(wpm(3, 999), None);
}

#[test]
fn wpm_for_whole_seconds() {
    assert_eq!(wpm_for_secs(120, 60), Some(120));
    assert_eq!(wpm_for_secs(2, 60), None);
}

#[test]
fn stats_for_empty_text() {
    let s = ResultStats::compute("", 60_000);
    assert_eq!(s.words, 0);
    assert_eq!(s.wpm, None);
}

#[test]
fn word_count_unicode_spaces() {
    // No-break space and ideographic space separate words too.
    assert_eq!(word_count("a\u{00A0}b\u{3000}c"), 3);
    assert_eq!(word_count("\u{2028}"), 0);
}

#[test]
fn latest_variant_and_raw_after_push() {
    let mut st = ResultState::from_text("raw".to_string(), 2_000);
    assert_eq!(st.latest_variant_index(), None);
    st.push_variant("A", "a");
    st.push_variant("B", "b");
    assert_eq!(st.latest_variant_index(), Some(2));
    st.set_active(1);
    assert_eq!(st.active_text(), "a");
    assert_eq!(st.polished_text(), Some("a"));
}
