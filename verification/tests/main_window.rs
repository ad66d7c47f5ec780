use speech_to_text::controls::{ControlAction, Controls};
use speech_to_text::devices::PerformancePage;
use speech_to_text::header::HeaderControls;
use speech_to_text::languages::LanguagePage;
use speech_to_text::main_window::{
    compute_mode, save_format, save_message, SaveFormat, Segment, MainWindow, StopOutcome,
};
use speech_to_text::status_bar::StatusBar;
use speech_to_text::transcript::TranscriptView;
use speech_to_text::version::update_for_release;

fn window() -> MainWindow {
    MainWindow::new(Controls::new("plain"), TranscriptView::new(), StatusBar::new("1.0.0"), HeaderControls::new())
}

#[test]
fn record_then_stop_transcribes() {
    let mut s = window();
    assert_eq!(s.recording_started(Ok(())), None);
    assert_eq!(s.controls.hero_action(), ControlAction::Stop);
    assert_eq!(s.status.recording_label(), "Recording…");
    s.paused();
    assert_eq!(s.status.recording_label(), "Paused");
    s.resumed();
    let o = s.stopped(Ok(true), true);
    assert_eq!(o, StopOutcome::Transcribe);
    assert_eq!(MainWindow::stop_message(&o), None);
    assert_eq!(s.status.recording_label(), "Transcribing…");
    assert_eq!(s.controls.hero_action(), ControlAction::Record);
    let segs = vec![Segment { start_ms: 0, end_ms: 900, text: "hello world".to_string() }];
    let f = s.transcribed(Ok(("hello world", Some(87), segs)), "English", "base");
    assert_eq!(f.copy, Some("hello world".to_string()));
    let e = f.entry.expect("history entry");
    assert_eq!(e.text, "hello world");
    assert_eq!(e.title, "hello world");
    assert_eq!(e.model, "base");
    assert!(f.toast.is_none());
    assert_eq!(s.status.recording_label(), "Ready");
    assert!(s.has_segments());
    assert_eq!(s.copy_request(), Some("hello world".to_string()));
    assert_eq!(s.transcript.confidence(), "87%");
    s.clear();
    assert_eq!(s.transcript.confidence(), "—");
}

#[test]
fn stop_without_audio_or_model() {
    let mut s = window();
    s.recording_started(Ok(()));
    let o = s.stopped(Ok(false), true);
    assert_eq!(o, StopOutcome::NoAudio);
    assert_eq!(MainWindow::stop_message(&o), Some("No audio recorded".to_string()));
    assert_eq!(s.status.recording_label(), "Ready");
    s.recording_started(Ok(()));
    let o = s.stopped(Ok(true), false);
    assert_eq!(o, StopOutcome::NoModel);
    assert_eq!(s.status.recording_label(), "No model loaded");
    let o = s.stopped(Err("device gone"), true);
    assert_eq!(o, StopOutcome::Failed("Error stopping recording: device gone".to_string()));
}

#[test]
fn failed_start_and_failed_transcription() {
    let mut s = window();
    assert_eq!(
        s.recording_started(Err("no device")),
        Some("Failed to start recording: no device".to_string())
    );
    assert_eq!(s.status.recording_label(), "Idle");
    let f = s.transcribed(Err("Transcription failed: boom"), "English", "base");
    assert_eq!(f.toast, Some("Transcription failed: boom".to_string()));
    assert!(f.copy.is_none() && f.entry.is_none());
    assert_eq!(s.status.recording_label(), "Error");
    assert_eq!(s.save_request(), Err("Nothing to save".to_string()));
}

#[test]
fn empty_transcription_copies_nothing() {
    let mut s = window();
    let f = s.transcribed(Ok(("", None, Vec::new())), "English", "base");
    assert!(f.copy.is_none() && f.entry.is_none());
    assert_eq!(s.transcript.message_count(), 1);
}

#[test]
fn cancel_resets() {
    let mut s = window();
    s.recording_started(Ok(()));
    s.paused();
    assert_eq!(s.cancelled(), "Recording cancelled");
    assert_eq!(s.controls.hero_action(), ControlAction::Record);
    assert_eq!(s.controls.pause_action(), ControlAction::Pause);
    assert_eq!(s.status.recording_label(), "Ready");
}

#[test]
fn settings_for_transcription() {
    let mut s = window();
    s.controls.set_translate_active(true);
    let mut perf = PerformancePage::new_for(8);
    perf.set_thread_count(6);
    perf.set_beam_size(2);
    perf.set_initial_prompt("Verus");
    let mut lang = LanguagePage::new();
    lang.load_from_config(false, Some("el"));
    let t = s.transcribe_settings(Some(&perf), Some(&lang));
    assert_eq!((t.n_threads, t.beam_size, t.translate), (6, 2, true));
    assert_eq!(t.language, Some("el".to_string()));
    assert_eq!(t.initial_prompt, Some("Verus".to_string()));
    let t = s.transcribe_settings(None, None);
    assert_eq!(t.beam_size, 5);
    assert!(t.n_threads >= 1 && t.n_threads <= 8);
    assert_eq!(t.language, None);
}

#[test]
fn file_transcription_flow() {
    let mut s = window();
    assert_eq!(
        s.file_transcription_started(false),
        Some("No model loaded — download and select a model first".to_string())
    );
    assert_eq!(s.file_transcription_started(true), None);
    assert_eq!(s.status.recording_label(), "Decoding file…");
    let f = s.file_transcribed(Ok(("from file", Some(0), Vec::new())));
    assert_eq!(s.transcript.confidence(), "0%");
    assert_eq!(f.toast, Some("File transcription complete".to_string()));
    assert_eq!(f.copy, Some("from file".to_string()));
    assert!(f.entry.is_none());
    assert_eq!(s.save_request(), Ok("from file".to_string()));
    s.clear();
    assert_eq!(s.copy_request(), None);
}

#[test]
fn model_loading_updates_header_and_status() {
    let mut s = window();
    s.model_loaded("base-q5_1", 1, false);
    assert_eq!(s.status.recording_label(), "Ready");
    s.gpu_probed(true, false);
    assert_eq!(compute_mode(false, false), "CPU");
    assert_eq!(compute_mode(true, false), "GPU");
    assert_eq!(
        s.model_missing("medium"),
        "Model 'medium' is not downloaded. Go to Model settings to download it."
    );
}

#[test]
fn save_formats() {
    assert_eq!(save_format(true, true), SaveFormat::Subtitles);
    assert_eq!(save_format(true, false), SaveFormat::PlainText);
    assert_eq!(save_format(false, true), SaveFormat::PlainText);
    assert_eq!(save_message(Ok(())), "Transcript saved");
    assert_eq!(save_message(Err("denied")), "Failed to save: denied");
}

#[test]
fn navigation_and_model_loading() {
    let mut w = window();
    assert_eq!(w.navigation.current_page(), Some("transcription"));
    assert_eq!(w.navigate_to(speech_to_text::navigation::NavItem::History), "history");
    assert_eq!(w.navigation.row_selected(3), Some("model"));
    assert_eq!(w.navigation.row_selected(30), None);
    assert_eq!(w.navigation.current_page(), Some("model"));
    assert_eq!(w.navigation.navigate_action("help"), Some("help"));
    assert_eq!(w.navigation.navigate_action("nowhere"), None);
    assert_eq!(w.navigation.toggle().width, 50);
    let t = w.show_toast("Copied to clipboard");
    assert_eq!((t.message.as_str(), t.timeout_secs), ("Copied to clipboard", 3));
    assert!(w.load_model_by_id("small", false, true).is_none());
    let q = w.load_model_by_id("small", true, true).expect("load");
    assert_eq!((q.model_id.as_str(), q.use_gpu), ("small", true));
    assert_eq!(w.status.recording_label(), "Loading model…");
    assert_eq!(w.model_load_failed("bad file").message, "Failed to load model: bad file");
}

#[test]
fn update_notice_only_for_a_newer_release() {
    let mut s = window();
    assert!(!s.status.is_update_visible());
    s.update_checked(None);
    assert!(!s.status.is_update_visible());
    let info = update_for_release("v1.2.0", "1.0.0").expect("newer");
    s.update_checked(Some(&info));
    assert!(s.status.is_update_visible());
    assert_eq!(s.status.update_label(), "v1.2.0 available");
}
