use speech_to_text::dictation::{AutoPasteStep, DictationPage};
use speech_to_text::dictionary::DictionaryPage;
use speech_to_text::api_page::{address_text, ApiPage, ServerAction};
use speech_to_text::debounce::SaveDebouncer;
use speech_to_text::devices::{
    active_device, cores_description, device_rows, select_device, test_button, AudioDevice,
    MicrophonePage, PerformancePage,
};
use speech_to_text::dictation::{
    auto_paste_answer, autostart_entry, autostart_file_name, dictation_mode_for,
    dictation_mode_index, paste_helper_description, shortcut_to_save, PasteHelper,
};
use speech_to_text::dictionary::{join_terms, parse_terms, remove_rule, rule_title, new_rule, DictReplacement};
use speech_to_text::languages::{language_code_to_name, language_index, LanguagePage};
use speech_to_text::navigation::{model_dropdown_index, sidebar_layout, toggle_sidebar, NavItem};
use speech_to_text::system::{default_thread_count, effective_thread_count, max_thread_count};
use speech_to_text::theme::{theme_name, Theme, ThemePopover};

#[test]
fn language_names_round_trip() {
    assert_eq!(language_code_to_name("el"), "Greek");
    assert_eq!(language_code_to_name("xx"), "xx");
    assert_eq!(language_index("en"), Some(0));
    assert_eq!(language_index("th"), Some(19));
    assert_eq!(language_index("zz"), None);
}

#[test]
fn language_page_selection() {
    let mut p = LanguagePage::new();
    assert!(p.is_auto_detect());
    assert_eq!(p.selected_language_code(), None);
    assert_eq!(p.selected_language_name(), "Auto-detect");
    p.load_from_config(false, Some("ja"));
    assert_eq!(p.selected_language_code(), Some("ja".to_string()));
    assert_eq!(p.selected_language_name(), "Japanese");
    assert_eq!(p.select_language(99), "th");
    assert_eq!(p.selected_language_code(), None);
    p.set_translate_enabled(true);
    p.set_translation_available(false);
    assert!(!p.is_translate_enabled());
    p.set_auto_detect_available(false);
    assert!(!p.is_auto_detect());
    assert!(p.language_combo_sensitive());
}

#[test]
fn nav_items_round_trip() {
    for (i, item) in NavItem::all().iter().enumerate() {
        assert_eq!(NavItem::from_index(i), Some(*item));
        assert_eq!(NavItem::from_page_name(item.page_name()), Some(*item));
    }
    assert_eq!(NavItem::from_page_name("settings"), None);
    assert!(NavItem::Model.is_settings());
    assert!(!NavItem::History.is_settings());
    assert_eq!(NavItem::Help.icon_name(), "help-about-symbolic");
}

#[test]
fn sidebar_toggles_back() {
    let (collapsed, layout) = toggle_sidebar(false);
    assert!(collapsed);
    assert_eq!(layout.width, 50);
    let (collapsed, layout) = toggle_sidebar(collapsed);
    assert!(!collapsed);
    assert_eq!(layout, sidebar_layout(false));
    assert_eq!(model_dropdown_index("large-v3"), 4);
    assert_eq!(model_dropdown_index("weird"), 1);
}

#[test]
fn debouncer_runs_last_action_once() {
    let mut d: SaveDebouncer<u32> = SaveDebouncer::new(300);
    let c1 = d.schedule(1);
    assert!(!c1.cancel_armed && c1.arm);
    let c2 = d.schedule(2);
    assert!(c2.cancel_armed);
    assert_eq!(d.on_timeout(), Some(2));
    assert_eq!(d.on_timeout(), None);
    d.schedule(3);
    assert_eq!(d.flush(), (true, Some(3)));
    assert_eq!(d.flush(), (false, None));
    assert_eq!(d.delay_ms(), 300);
}

#[test]
fn dictation_modes_round_trip() {
    for i in 0..5u32 {
        assert_eq!(dictation_mode_index(dictation_mode_for(i)), i);
    }
    assert_eq!(dictation_mode_for(42), "code_prompt");
    assert_eq!(dictation_mode_index("unknown"), 0);
}

#[test]
fn autostart_entry_text() {
    assert_eq!(autostart_file_name("com.example.App"), "com.example.App.desktop");
    assert_eq!(
        autostart_entry("Speech to Text", "/usr/bin/stt", "com.example.App"),
        "[Desktop Entry]\nType=Application\nName=Speech to Text\nExec=/usr/bin/stt --hidden\nIcon=com.example.App\nX-GNOME-Autostart-enabled=true\n"
    );
}

#[test]
fn dictation_small_rules() {
    assert!(auto_paste_answer("enable"));
    assert!(!auto_paste_answer("cancel"));
    assert_eq!(shortcut_to_save("  "), None);
    assert_eq!(shortcut_to_save("<Super>d"), Some("<Super>d".to_string()));
    assert_eq!(paste_helper_description(PasteHelper::Ydotool), "ydotool");
}

#[test]
fn dictionary_terms_round_trip() {
    let terms = parse_terms("  Verus \n\n\tKubernetes\r\n  \nGNOME");
    assert_eq!(terms, vec!["Verus", "Kubernetes", "GNOME"]);
    let joined = join_terms(&terms);
    assert_eq!(joined, "Verus\nKubernetes\nGNOME");
    assert_eq!(parse_terms(&joined), terms);
    assert!(parse_terms("").is_empty());
    assert!(parse_terms("\n \n").is_empty());
}

#[test]
fn replacement_titles_and_removal() {
    let blank = new_rule();
    assert_eq!(rule_title(&blank), "New replacement");
    let r = DictReplacement {
        from: "cooper netties".to_string(),
        to: "Kubernetes".to_string(),
        whole_word: true,
        case_sensitive: false,
    };
    assert_eq!(rule_title(&r), "cooper netties → Kubernetes");
    let mut rules = vec![new_rule(), r];
    assert!(!remove_rule(&mut rules, 5));
    assert!(remove_rule(&mut rules, 0));
    assert_eq!(rules.len(), 1);
    assert_eq!(rules[0].to, "Kubernetes");
}

#[test]
fn api_page_status_and_restarts() {
    assert_eq!(address_text(8765), "http://127.0.0.1:8765");
    let mut p = ApiPage::new(false, 8765, true);
    p.refresh_status(false);
    assert_eq!(p.status(), "Stopped");
    assert_eq!(p.set_enabled(true), ServerAction::Start);
    p.refresh_status(false);
    assert_eq!(p.status(), "Starting…");
    p.refresh_status(true);
    assert_eq!(p.status(), "Listening on http://127.0.0.1:8765");
    assert_eq!(p.set_port(8765), ServerAction::Nothing);
    assert_eq!(p.set_port(9000), ServerAction::Restart);
    assert_eq!(p.address(), "http://127.0.0.1:9000");
    assert_eq!(p.set_token_required(false), ServerAction::Restart);
    assert!(!p.begin_token_refresh());
    assert_eq!(p.token_label(), "Token not required");
}

#[test]
fn api_token_display() {
    let mut p = ApiPage::new(true, 8765, true);
    assert!(p.begin_token_refresh());
    assert_eq!(p.token_label(), "Loading…");
    p.token_loaded(Some("secret"));
    assert_eq!(p.token_label(), "••••••••••••");
    assert_eq!(p.token_to_copy(), Some("secret".to_string()));
    p.begin_token_refresh();
    p.token_loaded(Some(""));
    assert_eq!(p.token_label(), "Enable the server to create a token");
    assert_eq!(p.token_to_copy(), None);
    assert_eq!(p.token_regenerated(Ok("fresh")), ServerAction::Restart);
    assert_eq!(p.token_to_copy(), Some("fresh".to_string()));
    assert_eq!(p.token_regenerated(Err("locked")), ServerAction::Nothing);
    assert_eq!(p.token_label(), "Keyring error — token unchanged");
}

#[test]
fn devices_and_checks() {
    let devices = vec![
        AudioDevice { name: "USB Mic".to_string(), is_default: false },
        AudioDevice { name: "Built-in".to_string(), is_default: true },
    ];
    assert_eq!(active_device(None, &devices), Some("Built-in".to_string()));
    assert_eq!(active_device(Some("USB Mic"), &devices), Some("USB Mic".to_string()));
    assert_eq!(active_device(None, &[]), None);
    let mut rows = device_rows(&devices, Some("Built-in"));
    assert_eq!(rows.len(), 2);
    assert_eq!(rows[1].subtitle, "Default device");
    assert!(!rows[0].checked && rows[1].checked);
    select_device(&mut rows, "USB Mic");
    assert!(rows[0].checked && !rows[1].checked);
    let empty = device_rows(&[], None);
    assert_eq!(empty.len(), 1);
    assert_eq!(empty[0].title, "No audio input devices found");
    assert_eq!(test_button(true), ("Listening…", false));
}

#[test]
fn performance_spinners_stay_in_range() {
    let mut p = PerformancePage::new_for(6);
    assert_eq!(p.get_thread_count(), 4);
    p.load_from_config(false, true, 0, 12, Some("Kubernetes, GNOME"));
    assert_eq!(p.get_thread_count(), 6);
    assert_eq!(p.get_beam_size(), 8);
    assert!(!p.get_gpu_enabled());
    assert_eq!(p.get_initial_prompt(), Some("Kubernetes, GNOME".to_string()));
    p.set_initial_prompt("");
    assert_eq!(p.get_initial_prompt(), None);
    p.set_thread_count(0);
    assert_eq!(p.get_thread_count(), 1);
    p.set_beam_size(3);
    assert_eq!(p.get_beam_size(), 3);
    let small = PerformancePage::new_for(2);
    assert_eq!(small.get_thread_count(), 2);
    assert_eq!(cores_description(16), "This system has 16 CPU cores available");
}

#[test]
fn machine_thread_counts() {
    let cpus = max_thread_count();
    assert!(cpus >= 1);
    assert_eq!(cpus, num_cpus::get());
    assert_eq!(default_thread_count() as usize, cpus.min(8));
    assert_eq!(effective_thread_count(3), 3);
    assert_eq!(effective_thread_count(0) as usize, cpus);
}

#[test]
fn theme_round_trip() {
    for t in [Theme::System, Theme::Light, Theme::Dark] {
        assert_eq!(ThemePopover::apply_theme(theme_name(t)), t);
    }
    assert_eq!(ThemePopover::apply_theme("solarized"), Theme::System);
    let mut p = ThemePopover::new(Theme::System);
    assert_eq!(p.load_saved_theme(Some("dark")), Theme::Dark);
    assert_eq!(p.load_saved_theme(None), Theme::System);
    assert_eq!(p.select_theme(Theme::Light), "light");
    assert!(p.is_checked(Theme::Light) && !p.is_checked(Theme::Dark));
}

#[test]
fn dictionary_page_edits() {
    let mut p = DictionaryPage::new(true, vec!["Verus".to_string(), "GNOME".to_string()], vec![]);
    assert_eq!(p.editor_text(), "Verus\nGNOME");
    p.terms_edited("a\n\n b \n");
    assert_eq!(p.terms, vec!["a", "b"]);
    p.add_rule();
    assert_eq!(p.rule_titles(), vec!["New replacement"]);
    let mut r = p.rule(0).unwrap();
    r.from = "kube".to_string();
    r.to = "Kube".to_string();
    p.update_rule(0, r);
    p.update_rule(3, new_rule());
    assert_eq!(p.rule_titles(), vec!["kube → Kube"]);
    assert!(p.rule(1).is_none());
    assert!(p.remove_rule(0));
    assert!(!p.remove_rule(0));
}

#[test]
fn dictation_page_flow() {
    let mut p = DictationPage::new(true, false, false, "<Super>space", false, "note", true, false);
    assert_eq!(p.mode, 3);
    assert!(p.set_start_hidden(true));
    assert!(!p.shortcut_changed(""));
    assert_eq!(p.shortcut, "<Super>space");
    assert!(p.shortcut_changed("<Ctrl>d"));
    assert_eq!(p.auto_paste_switched(true), AutoPasteStep::AskConsent);
    assert!(!p.auto_paste);
    assert!(!p.auto_paste_answered("cancel"));
    assert!(!p.auto_paste);
    assert!(p.auto_paste_answered("enable"));
    assert!(p.auto_paste);
    assert_eq!(p.auto_paste_switched(false), AutoPasteStep::SaveOff);
    assert!(!p.auto_paste);
    assert_eq!(p.mode_selected(9), "code_prompt");
    assert_eq!(p.mode, 4);
}

#[test]
fn microphone_page_lists_and_selects() {
    let mut page = MicrophonePage::new();
    assert!(page.rows.is_empty());
    assert!(!page.testing);
    let devices = vec![
        AudioDevice { name: "USB Mic".to_string(), is_default: false },
        AudioDevice { name: "Built-in".to_string(), is_default: true },
    ];
    page.refresh_devices(&devices, None);
    assert_eq!(page.rows.len(), 2);
    assert!(!page.rows[0].checked && page.rows[1].checked);
    assert_eq!(page.rows[1].subtitle, "Default device");
    page.refresh_devices(&devices, Some("USB Mic"));
    assert!(page.rows[0].checked && !page.rows[1].checked);
    assert_eq!(page.set_selected_device("Built-in"), "Built-in");
    assert!(!page.rows[0].checked && page.rows[1].checked);
    page.refresh_devices(&[], None);
    assert_eq!(page.rows.len(), 1);
    assert_eq!(page.rows[0].title, "No audio input devices found");
    assert_eq!(page.start_test(), ("Listening…", false));
    assert!(page.testing);
    assert_eq!(page.test_finished("No audio detected"), ("Test", true));
    assert!(!page.testing);
    assert_eq!(page.test_subtitle, "No audio detected");
}

#[test]
fn dictionary_add_then_remove_rule_restores() {
    let rule = DictReplacement {
        from: "verus".to_string(),
        to: "Verus".to_string(),
        whole_word: true,
        case_sensitive: false,
    };
    let mut p = DictionaryPage::new(true, vec![], vec![rule]);
    p.add_rule();
    assert_eq!(p.rules.len(), 2);
    assert!(p.remove_rule(1));
    assert_eq!(p.rules.len(), 1);
    assert_eq!(p.rules[0].from, "verus");
    assert_eq!(p.rules[0].to, "Verus");
    assert!(p.rules[0].whole_word && !p.rules[0].case_sensitive);
    assert!(!p.remove_rule(5));
}
