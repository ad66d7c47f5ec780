use speech_to_text::history::{
    dictation_title, entry_subtitle, format_duration, placeholder_is_empty_history,
    retitle_first, search_query, searchable_blob, HistoryEntry, HistoryPage, PopulateStep,
    SaveSequencer, POPULATE_CHUNK, corrupt_backup_extension, corrupt_backup_extension_at,
};

fn entry(id: &str, title: &str, text: &str) -> HistoryEntry {
    HistoryEntry {
        id: id.to_string(),
        title: title.to_string(),
        text: text.to_string(),
        language: "English".to_string(),
        duration_secs: 0,
        timestamp: "2026-01-02 10:30".to_string(),
        model: "base".to_string(),
        word_count: None,
        polished_text: None,
        summary: None,
    }
}

#[test]
fn durations_read_as_minutes_and_seconds() {
    assert_eq!(format_duration(0), "0s");
    assert_eq!(format_duration(42), "42s");
    assert_eq!(format_duration(187), "3m 7s");
    assert_eq!(format_duration(3600), "60m 0s");
}

#[test]
fn subtitle_lists_time_language_duration_words_rate() {
    let mut e = entry("a", "t", "x");
    e.duration_secs = 60;
    assert_eq!(entry_subtitle(&e, "words"), "2026-01-02 10:30 • English • 1m 0s");
    e.word_count = Some(120);
    assert_eq!(entry_subtitle(&e, "words"), "2026-01-02 10:30 • English • 1m 0s • 120 words · 120 wpm");
    e.word_count = Some(2);
    assert_eq!(entry_subtitle(&e, "words"), "2026-01-02 10:30 • English • 1m 0s • 2 words");
}

#[test]
fn titles_cut_at_sixty_bytes() {
    let short = "Short dictation";
    assert_eq!(dictation_title(short), short);
    let long = "a".repeat(70);
    assert_eq!(dictation_title(&long), format!("{}…", "a".repeat(60)));
    let exact = "b".repeat(60);
    assert_eq!(dictation_title(&exact), exact);
}

#[test]
fn search_blob_is_lowercased_fields() {
    let mut e = entry("id", "Meeting NOTES", "Discuss Budget");
    e.polished_text = Some("Polished".to_string());
    assert_eq!(searchable_blob(&e), "meeting notes\ndiscuss budget\npolished\n");
    assert_eq!(search_query("BuDgEt"), "budget");
    assert_eq!(search_query("ΚΑΛΗΜΕΡΑ"), "καλημερα");
}

#[test]
fn for_dictation_builds_fresh_entry() {
    let e = HistoryEntry::for_dictation("hello there", "Greek".to_string(), "small".to_string());
    assert_eq!(e.id.len(), 36);
    for (i, c) in e.id.chars().enumerate() {
        if [8, 13, 18, 23].contains(&i) {
            assert_eq!(c, '-');
        } else {
            assert!(c.is_ascii_hexdigit() && !c.is_ascii_uppercase());
        }
    }
    let other = HistoryEntry::for_dictation("hello there", "Greek".to_string(), "small".to_string());
    assert_ne!(e.id, other.id);
    assert_eq!(e.title, "hello there");
    assert_eq!(e.text, "hello there");
    assert_eq!(e.language, "Greek");
    let stamp: Vec<char> = e.timestamp.chars().collect();
    assert_eq!(stamp.len(), 16);
    for (i, c) in stamp.iter().enumerate() {
        match i {
            4 | 7 => assert_eq!(*c, '-'),
            10 => assert_eq!(*c, ' '),
            13 => assert_eq!(*c, ':'),
            _ => assert!(c.is_ascii_digit()),
        }
    }
    assert_eq!(e.model, "small");
    assert_eq!(e.duration_secs, 0);
    assert_eq!(e.timestamp.len(), 16);
}

#[test]
fn saves_wait_for_initial_load() {
    let mut page = HistoryPage::new();
    assert!(!page.is_loaded());
    // Before the load finishes a save is deferred.
    assert!(!page.add_entry(entry("n1", "new", "fresh text")));
    let (populate, save_now) = page.finish_load(vec![entry("o1", "old", "older")], page.generation());
    assert!(populate);
    assert!(save_now);
    let ids: Vec<&str> = page.entries().iter().map(|e| e.id.as_str()).collect();
    assert_eq!(ids, vec!["o1", "n1"]);
    // After the load, saves happen at once.
    assert!(page.add_entry(entry("n2", "another", "more")));
}

#[test]
fn clear_cancels_a_stale_load() {
    let mut page = HistoryPage::new();
    let g = page.generation();
    page.clear_all();
    assert_ne!(page.generation(), g);
    let (populate, _) = page.finish_load(vec![entry("o1", "old", "older")], g);
    assert!(!populate);
    assert!(page.entries().is_empty());
    assert!(page.is_loaded());
}

#[test]
fn delete_removes_every_entry_with_id() {
    let mut page = HistoryPage::new();
    page.finish_load(vec![], page.generation());
    page.add_entry(entry("a", "A", "x"));
    page.add_entry(entry("b", "B", "y"));
    page.add_entry(entry("a", "A2", "z"));
    assert!(page.delete_entry("a"));
    assert_eq!(page.entries().len(), 1);
    assert_eq!(page.entries()[0].id, "b");
    assert!(!page.has_row("a"));
    assert!(page.has_row("b"));
    assert!(page.find_entry("a").is_none());
}

#[test]
fn retitle_changes_first_match_only() {
    let mut page = HistoryPage::new();
    page.finish_load(vec![], page.generation());
    page.add_entry(entry("a", "A", "x"));
    page.add_entry(entry("a", "A2", "z"));
    assert_eq!(page.update_entry_title("a", "Renamed"), (true, true));
    assert_eq!(page.entries()[0].title, "Renamed");
    assert_eq!(page.entries()[1].title, "A2");
    assert_eq!(page.update_entry_title("missing", "x"), (false, false));
    assert!(page.row_visible("a", "renamed"));
    assert!(!page.row_visible("a", "zzz"));
    assert!(page.row_visible("a", ""));
}

#[test]
fn populate_adds_rows_in_chunks_without_duplicates() {
    let mut page = HistoryPage::new();
    let loaded: Vec<HistoryEntry> = (0..(POPULATE_CHUNK + 5))
        .map(|i| entry(&format!("id{i}"), "t", "x"))
        .collect();
    let g = page.generation();
    page.finish_load(loaded.clone(), g);
    let snapshot = page.entries().clone();
    let step = page.populate_chunk(&snapshot, 0, g);
    assert_eq!(step, PopulateStep::Continue(POPULATE_CHUNK));
    assert!(page.has_row("id0"));
    assert!(!page.has_row(&format!("id{}", POPULATE_CHUNK)));
    let step = page.populate_chunk(&snapshot, POPULATE_CHUNK, g);
    assert_eq!(step, PopulateStep::Done);
    assert!(page.has_row(&format!("id{}", POPULATE_CHUNK + 4)));
    // A second walk adds nothing new.
    assert_eq!(page.populate_chunk(&snapshot, POPULATE_CHUNK, g), PopulateStep::Done);
    // A walk from an older generation stops.
    page.clear_all();
    assert_eq!(page.populate_chunk(&snapshot, 0, g), PopulateStep::Stop);
}

#[test]
fn empty_query_shows_placeholder_title() {
    assert!(placeholder_is_empty_history(""));
    assert!(!placeholder_is_empty_history("x"));
}

#[test]
fn disk_retitle_touches_first_match() {
    let mut entries = vec![entry("a", "A", "x"), entry("b", "B", "y"), entry("a", "A3", "z")];
    assert!(retitle_first(&mut entries, "a", "T"));
    assert_eq!(entries[0].title, "T");
    assert_eq!(entries[2].title, "A3");
    assert!(!retitle_first(&mut entries, "c", "T"));
}

#[test]
fn older_snapshots_never_overwrite_newer() {
    let mut seq = SaveSequencer::new();
    let first = seq.begin();
    let second = seq.begin();
    assert_eq!((first, second), (1, 2));
    assert!(seq.should_write(second));
    seq.record_written(second);
    assert!(!seq.should_write(first));
}

#[test]
fn corrupt_backup_extension_names_the_time() {
    assert_eq!(corrupt_backup_extension_at(1700000000), "json.corrupt-1700000000");
    assert_eq!(corrupt_backup_extension_at(0), "json.corrupt-0");
    assert_eq!(corrupt_backup_extension_at(-5), "json.corrupt--5");
    assert_eq!(
        corrupt_backup_extension_at(i64::MIN),
        "json.corrupt--9223372036854775808"
    );
    let now = corrupt_backup_extension();
    let digits = now.strip_prefix("json.corrupt-").unwrap();
    assert!(digits.parse::<i64>().unwrap() > 1_600_000_000);
}

#[test]
fn an_id_keeps_one_row() {
    let mut page = HistoryPage::new();
    page.add_entry(entry("a", "first", "text one"));
    page.add_entry(entry("a", "again", "text two"));
    assert!(page.has_row("a"));
    assert_eq!(page.entries().len(), 2);
    assert!(page.row_visible("a", "two"));
    assert!(!page.row_visible("a", "one"));
}
