use speech_to_text::controls::{hero_presentation, pause_presentation, ControlAction, Controls};
use speech_to_text::header::HeaderControls;
use speech_to_text::mini_panel::{elapsed_string, led_class, MiniPanel, MiniPanelAction, PanelState};
use speech_to_text::status_bar::StatusBar;
use speech_to_text::transcript::{progress_cells, TranscriptView, SEGMENT_COUNT};

#[test]
fn hero_alternates_record_and_stop() {
    let mut c = Controls::new("email");
    assert_eq!(c.mode_index(), 2);
    assert_eq!(c.hero_action(), ControlAction::Record);
    let h = c.set_recording_state(true);
    assert_eq!(h.state_label, "Recording");
    assert_eq!(h.icon, "media-playback-stop-symbolic");
    assert!(h.tools_active && !h.open_file_sensitive);
    assert_eq!(c.hero_action(), ControlAction::Stop);
    c.set_recording_state(false);
    assert_eq!(c.hero_action(), ControlAction::Record);
}

#[test]
fn pause_button_alternates() {
    let mut c = Controls::new("plain");
    assert_eq!(c.pause_action(), ControlAction::Pause);
    let p = c.set_paused_state(true);
    assert_eq!((p.label, p.icon), ("Resume", "media-playback-start-symbolic"));
    assert_eq!(c.pause_action(), ControlAction::Resume);
    c.set_recording_state(true);
    let (h, p) = c.reset();
    assert_eq!(h.title, "Start a new recording");
    assert_eq!(p.tooltip, "Pause recording");
    assert_eq!(c.pause_action(), ControlAction::Pause);
    assert_eq!(c.hero_action(), ControlAction::Record);
}

#[test]
fn unknown_mode_selects_plain_and_chips_save_ids() {
    let mut c = Controls::new("shouting");
    assert_eq!(c.mode_index(), 0);
    assert_eq!(c.select_mode(4), "code_prompt");
    assert_eq!(c.mode_index(), 4);
}

#[test]
fn disabling_translate_turns_it_off() {
    let mut c = Controls::new("plain");
    c.set_translate_active(true);
    c.set_translate_enabled(false);
    assert!(!c.is_translate_active());
    assert!(!c.is_translate_sensitive());
    c.set_translate_enabled(true);
    assert!(!c.is_translate_active());
    assert!(!c.is_ai_visible());
    c.set_ai_visible(true);
    c.set_ai_active(true);
    assert!(c.is_ai_active());
}

#[test]
fn idle_presentation_texts() {
    let h = hero_presentation(false);
    assert_eq!(h.hint, "Ctrl+R to start · Esc to cancel");
    assert_eq!(h.button_class, "suggested-action");
    assert_eq!(pause_presentation(false).label, "Pause");
}

#[test]
fn status_indicator_follows_wording() {
    let mut sb = StatusBar::new("1.2.3");
    assert_eq!(sb.recording_label(), "Idle");
    sb.set_recording_status("Recording…");
    let i = sb.icon();
    assert!(i.success && i.pulse && !i.dim);
    sb.set_recording_status("Transcribing…");
    assert!(sb.icon().accent && sb.icon().pulse && !sb.icon().success);
    sb.set_recording_status("Paused");
    let i = sb.icon();
    assert!(i.warning && !i.pulse);
    // The accent class, once set, is never removed.
    assert!(i.accent);
    sb.set_recording_status("Ready");
    assert!(sb.icon().dim && !sb.icon().warning);
}

#[test]
fn update_notice_names_version() {
    let mut sb = StatusBar::new("1.0.0");
    assert!(!sb.is_update_visible());
    sb.show_update_available("1.4.0");
    assert!(sb.is_update_visible());
    assert_eq!(sb.update_label(), "v1.4.0 available");
}

#[test]
fn transcript_joins_messages() {
    let mut tv = TranscriptView::new();
    assert_eq!(tv.get_text(), "");
    assert_eq!(tv.add_message("first"), 0);
    assert_eq!(tv.add_message("second"), 1);
    assert!(tv.is_selected(1) && !tv.is_selected(0));
    assert_eq!(tv.get_text(), "first\n\nsecond");
    tv.update_message(0, "FIRST");
    tv.update_message(7, "ignored");
    assert_eq!(tv.get_text(), "FIRST\n\nsecond");
    assert_eq!(tv.message_count(), 2);
}

#[test]
fn set_text_round_trips() {
    let mut tv = TranscriptView::new();
    tv.add_message("old");
    tv.set_text("only this");
    assert_eq!(tv.get_text(), "only this");
    assert_eq!(tv.message_count(), 1);
    tv.set_text("");
    assert_eq!(tv.get_text(), "");
    assert_eq!(tv.message_count(), 0);
}

#[test]
fn timer_and_stats_texts() {
    let mut tv = TranscriptView::new();
    assert_eq!(tv.timer(), "00:00");
    tv.set_timer(65);
    assert_eq!(tv.timer(), "01:05");
    tv.set_timer(6001);
    assert_eq!(tv.timer(), "100:01");
    tv.set_stats(128, Some(96));
    assert_eq!(tv.stats(), "128 words · 96 wpm");
    tv.set_stats(1, None);
    assert_eq!(tv.stats(), "1 word");
    tv.set_stats(0, Some(5));
    assert_eq!(tv.stats(), "");
}

#[test]
fn decode_sweep_lights_a_window_of_six() {
    let mut tv = TranscriptView::new();
    assert!(tv.start_transcribing_anim());
    assert!(!tv.start_transcribing_anim());
    assert!(tv.sweep_tick());
    let lit: Vec<usize> = (0..SEGMENT_COUNT).filter(|&i| tv.is_cell_lit(i)).collect();
    assert_eq!(lit, vec![0, 1, 2, 3, 4, 5]);
    assert!(tv.sweep_tick());
    let lit: Vec<usize> = (0..SEGMENT_COUNT).filter(|&i| tv.is_cell_lit(i)).collect();
    assert_eq!(lit, vec![1, 2, 3, 4, 5, 6]);
    tv.set_decode_progress(50);
    assert!(!tv.sweep_tick());
    let lit = (0..SEGMENT_COUNT).filter(|&i| tv.is_cell_lit(i)).count();
    assert_eq!(lit, 12);
    tv.stop_transcribing_anim();
    assert_eq!((0..SEGMENT_COUNT).filter(|&i| tv.is_cell_lit(i)).count(), 0);
}

#[test]
fn progress_rounds_like_the_fraction() {
    assert_eq!(progress_cells(0, 24), 0);
    assert_eq!(progress_cells(100, 24), 24);
    assert_eq!(progress_cells(150, 24), 24);
    assert_eq!(progress_cells(-3, 24), 0);
    // 25 % of 22 cells is 5.5, rounded to 6.
    assert_eq!(progress_cells(25, 22), 6);
    assert_eq!(progress_cells(33, 24), 8);
}

#[test]
fn clear_resets_results() {
    let mut tv = TranscriptView::new();
    tv.add_message("x");
    tv.set_chips_visible(true);
    tv.set_summary("sum", &[("00:00".to_string(), "Intro".to_string())]);
    tv.clear();
    assert_eq!(tv.message_count(), 0);
    assert_eq!(tv.stats(), "");
}

#[test]
fn mini_panel_states() {
    let mut p = MiniPanel::new();
    assert_eq!(p.state(), PanelState::Recording);
    assert_eq!(p.page_name(), "recording");
    assert!(p.show_transcribing("base", "el"));
    assert_eq!(p.page_name(), "transcribing");
    assert!(!p.show_improving());
    assert!(p.sweep_tick());
    p.show_result("done text", true);
    assert_eq!(p.state(), PanelState::Result);
    assert_eq!(p.transcript_text(), "done text");
    assert!(!p.sweep_tick());
    p.show_error("Oops");
    assert_eq!(p.transcript_text(), "Oops");
    p.show_recording("Auto");
    assert_eq!(p.page_name(), "recording");
}

#[test]
fn mini_panel_elapsed_and_leds() {
    assert_eq!(elapsed_string(4), "0.4 s");
    assert_eq!(elapsed_string(40), "3.6 s");
    assert_eq!(elapsed_string(100), "9.0 s");
    assert_eq!(led_class(0, 7), Some("g"));
    assert_eq!(led_class(4, 7), Some("y"));
    assert_eq!(led_class(6, 7), Some("r"));
    assert_eq!(led_class(3, 3), None);
    let mut p = MiniPanel::new();
    p.set_level(5);
    assert_eq!(p.led(4), Some("y"));
    assert_eq!(p.led(5), None);
}

#[test]
fn mini_panel_timer_caps_hundredths() {
    let mut p = MiniPanel::new();
    assert_eq!((p.timer_text(), p.centis_text()), ("00:00", ".00"));
    p.set_timer(125, 7);
    assert_eq!((p.timer_text(), p.centis_text()), ("02:05", ".07"));
    p.set_timer(59, 250);
    assert_eq!((p.timer_text(), p.centis_text()), ("00:59", ".99"));
    p.set_result_stats(3, Some(180));
    assert_eq!(p.result_stats(), "3 words · 180 wpm");
    p.show_recording("el");
    assert_eq!(p.result_stats(), "");
}

#[test]
fn header_selector_follows_backend() {
    let mut h = HeaderControls::new();
    assert_eq!(h.selected_model_id(), "base");
    let downloaded = vec![
        ("small".to_string(), "Small".to_string()),
        ("tiny-q5_1".to_string(), "Tiny Q5".to_string()),
    ];
    h.update_models_for_backend("whisper", &downloaded, false, false);
    assert_eq!(h.selected_model_id(), "small");
    h.set_selected_model_by_id("tiny-q5_1");
    assert_eq!(h.selected_model_id(), "tiny-q5_1");
    h.set_selected_model_by_id("nope");
    assert_eq!(h.selected_model_id(), "small");
    h.update_models_for_backend("cohere", &downloaded, false, false);
    assert_eq!(h.selected_model_id(), "cohere-transcribe");
    h.update_models_for_backend("qwen", &downloaded, false, true);
    assert_eq!(h.selected_model_id(), "1.7B");
    h.update_models_for_backend("qwen", &downloaded, false, false);
    assert_eq!(h.selected_model_id(), "base");
    h.update_models_for_backend("whisper", &[], true, true);
    assert_eq!(h.selected_model_id(), "base");
    assert_eq!(h.select_model(0), None);
}

#[test]
fn header_status_texts() {
    let mut h = HeaderControls::new();
    assert_eq!(h.set_model_status(true, "base"), ("Model Loaded", true));
    assert_eq!(h.set_model_status(false, "base"), ("No Model", false));
}

#[test]
fn mini_panel_close_request() {
    let mut p = MiniPanel::new();
    p.show_recording("Auto");
    assert_eq!(p.close_request(), MiniPanelAction::Cancel);
    p.show_result("done text", true);
    assert_eq!(p.close_request(), MiniPanelAction::Close);
}

#[test]
fn variant_selection_reports_once() {
    let labels = vec!["Raw".to_string(), "Short".to_string()];
    let mut t = TranscriptView::new();
    t.set_variant_selector(&labels, 0);
    assert_eq!(t.variant_selected(1), 1);
    let mut p = MiniPanel::new();
    p.set_variant_selector(&labels, 0);
    assert_eq!(p.variant_selected(1), MiniPanelAction::Variant(1));
}
