//! The main window: page navigation, and the recording session — what
//! record, pause, resume, stop, cancel, copy, clear and save do to the
//! controls, the transcript and the status bar, which settings a
//! transcription runs with, what a finished transcription leaves behind
//! (clipboard text, history entry), and how models are loaded.

use vstd::prelude::*;
use crate::text::{owned, push_str};
use crate::controls::{Controls, ControlsView, hero_spec};
use crate::transcript::{TranscriptView, TranscriptState, with_message, joined, cleared, confidence_text};
use crate::status_bar::{StatusBar, StatusBarView, icon_after, update_text};
use crate::version::UpdateInfo;
use crate::header::{HeaderControls, HeaderView};
use crate::navigation::{Navigation, NavItem, nav_page};
use crate::devices::PerformancePage;
use crate::languages::{LanguagePage, lang_code};
use crate::system::default_thread_count;
use crate::history::{HistoryEntry, dictation_title_of};
use crate::system::{is_hyphenated_uuid, is_minute_stamp};
use vstd::utf8::is_char_boundary;
use vstd::string::StringSliceAdditionalSpecFns;

verus! {

/// A timed piece of a transcript (milliseconds), kept for subtitle export.
pub struct Segment {
    pub start_ms: i64,
    pub end_ms: i64,
    pub text: String,
}

/// What stopping a recording leads to.
#[derive(Debug, Clone, PartialEq, Eq)]
pub enum StopOutcome {
    /// Stopping the capture failed; nothing else changes.
    Failed(String),
    /// Nothing was recorded.
    NoAudio,
    /// No model is loaded to transcribe with.
    NoModel,
    /// Transcribe the recorded audio.
    Transcribe,
}

/// The settings a transcription runs with (the temperature is passed along
/// by the caller).
pub struct TranscribeSettings {
    pub n_threads: u32,
    pub beam_size: u32,
    pub translate: bool,
    pub language: Option<String>,
    pub initial_prompt: Option<String>,
}

/// What a finished transcription asks of the window.
pub struct Finished {
    /// Text to put on the clipboard.
    pub copy: Option<String>,
    /// The entry to add to the history.
    pub entry: Option<HistoryEntry>,
    /// A message to show.
    pub toast: Option<String>,
}

/// How a transcript is written to a file.
#[derive(Debug, Clone, Copy, PartialEq, Eq, Structural)]
pub enum SaveFormat {
    Subtitles,
    PlainText,
}

/// Subtitles are written only for a `.srt` path and when timed segments exist.
pub fn save_format(srt_path: bool, has_segments: bool) -> (f: SaveFormat)
    ensures
        f == (if srt_path && has_segments { SaveFormat::Subtitles } else { SaveFormat::PlainText }),
{
    if srt_path && has_segments {
        SaveFormat::Subtitles
    } else {
        SaveFormat::PlainText
    }
}

/// The message after writing a transcript file.
pub fn save_message(result: Result<(), &str>) -> (s: String)
    ensures
        s@ == (match result {
            Ok(_) => "Transcript saved"@,
            Err(e) => "Failed to save: "@ + e@,
        }),
{
    match result {
        Ok(()) => owned("Transcript saved"),
        Err(e) => {
            let mut s = owned("Failed to save: ");
            push_str(&mut s, e);
            s
        },
    }
}

/// The main window's state.
pub struct MainWindow {
    pub controls: Controls,
    pub transcript: TranscriptView,
    pub status: StatusBar,
    pub header: HeaderControls,
    pub navigation: Navigation,
    pub segments: Vec<Segment>,
}

/// A notification: its message and how many seconds it stays.
pub struct Toast {
    pub message: String,
    pub timeout_secs: u32,
}

/// A request to load a model in the background.
pub struct LoadRequest {
    pub model_id: String,
    pub use_gpu: bool,
}

/// The compute mode shown once the GPU probe answered.
pub open spec fn compute_mode_of(has_gpu: bool, use_gpu: bool) -> Seq<char> {
    if has_gpu || use_gpu {
        "GPU"@
    } else {
        "CPU"@
    }
}

/// The compute mode for a probe result and the GPU setting.
pub fn compute_mode(has_gpu: bool, use_gpu: bool) -> (s: &'static str)
    ensures
        s@ == compute_mode_of(has_gpu, use_gpu),
{
    if has_gpu || use_gpu {
        "GPU"
    } else {
        "CPU"
    }
}

/// The message when a chosen model is not on disk.
pub fn not_downloaded_message(model_id: &str) -> (s: String)
    ensures
        s@ == "Model '"@ + model_id@ + "' is not downloaded. Go to Model settings to download it."@,
{
    let mut s = owned("Model '");
    push_str(&mut s, model_id);
    push_str(&mut s, "' is not downloaded. Go to Model settings to download it.");
    s
}

/// The status bar after showing a status text.
pub open spec fn with_status(s: StatusBarView, text: Seq<char>) -> StatusBarView {
    StatusBarView { recording_label: text, icon: icon_after(s.icon, text), ..s }
}

/// The controls back at idle.
pub open spec fn idle(c: ControlsView) -> ControlsView {
    ControlsView { recording: false, paused: false, ..c }
}

/// The header and the sidebar navigation are the same in both windows.
pub open spec fn chrome_same(a: MainWindow, b: MainWindow) -> bool {
    a.header@ == b.header@ && a.navigation == b.navigation
}

impl MainWindow {
    /// A window from its parts, showing the transcription page.
    pub fn new(
        controls: Controls,
        transcript: TranscriptView,
        status: StatusBar,
        header: HeaderControls,
    ) -> (s: Self)
        ensures
            s.controls@ == controls@,
            s.transcript@ == transcript@,
            s.status@ == status@,
            s.header@ == header@,
            s.navigation.current() == Some(NavItem::Transcription),
            !s.navigation.collapsed(),
            s.segments@.len() == 0,
    {
        MainWindow { controls, transcript, status, header, navigation: Navigation::new(), segments: Vec::new() }
    }

    /// Show the page of `item`; returns the content-stack page name.
    pub fn navigate_to(&mut self, item: NavItem) -> (page: &'static str)
        ensures
            final(self).header@ == old(self).header@,
            final(self).segments@ == old(self).segments@,
            final(self).navigation.current() == Some(item),
            final(self).navigation.collapsed() == old(self).navigation.collapsed(),
            page@ == nav_page(item),
            final(self).controls@ == old(self).controls@,
            final(self).transcript@ == old(self).transcript@,
            final(self).status@ == old(self).status@,
    {
        self.navigation.navigate_to(item)
    }

    /// A notification that stays three seconds.
    pub fn show_toast(&self, message: &str) -> (t: Toast)
        ensures
            t.message@ == message@,
            t.timeout_secs == 3,
    {
        Toast { message: owned(message), timeout_secs: 3 }
    }

    /// Load model `model_id` (`downloaded`: its files are on disk) with the
    /// GPU setting: nothing happens for a model that is not on disk;
    /// otherwise the status says the model is loading.
    pub fn load_model_by_id(&mut self, model_id: &str, downloaded: bool, use_gpu: bool) -> (r: Option<
        LoadRequest,
    >)
        ensures
            final(self).navigation == old(self).navigation,
            final(self).segments@ == old(self).segments@,
            !downloaded ==> r is None && final(self).status@ == old(self).status@,
            downloaded ==> (r matches Some(q) && q.model_id@ == model_id@ && q.use_gpu == use_gpu)
                && final(self).status@ == with_status(old(self).status@, "Loading model…"@),
            final(self).controls@ == old(self).controls@,
            final(self).transcript@ == old(self).transcript@,
            final(self).header@ == old(self).header@,
    {
        if !downloaded {
            return None;
        }
        self.status.set_recording_status("Loading model…");
        Some(LoadRequest { model_id: owned(model_id), use_gpu })
    }

    /// A background load failed: the message to show.
    pub fn model_load_failed(&self, err: &str) -> (t: Toast)
        ensures
            t.message@ == "Failed to load model: "@ + err@,
            t.timeout_secs == 3,
    {
        let mut m = owned("Failed to load model: ");
        push_str(&mut m, err);
        Toast { message: m, timeout_secs: 3 }
    }

    /// A model finished loading: the header shows it loaded and selects the
    /// dropdown entry `index` of its size; the status bar shows the compute
    /// mode from the GPU setting and "Ready".
    pub fn model_loaded(&mut self, model_id: &str, index: u32, use_gpu: bool)
        ensures
            final(self).navigation == old(self).navigation,
            final(self).segments@ == old(self).segments@,
            final(self).header@ == (HeaderView {
                status: Some(true),
                selected: index,
                ..old(self).header@
            }),
            final(self).status@ == with_status(
                StatusBarView { compute: if use_gpu { "GPU"@ } else { "CPU"@ }, ..old(self).status@ },
                "Ready"@,
            ),
            final(self).controls@ == old(self).controls@,
            final(self).transcript@ == old(self).transcript@,
    {
        self.header.set_model_status(true, model_id);
        self.header.set_selected_model(index);
        self.status.set_model_name(model_id);
        self.status.set_compute_mode(if use_gpu { "GPU" } else { "CPU" });
        self.status.set_recording_status("Ready");
    }

    /// The GPU probe answered after a model loaded.
    pub fn gpu_probed(&mut self, has_gpu: bool, use_gpu: bool)
        ensures
            final(self).controls@ == old(self).controls@,
            final(self).transcript@ == old(self).transcript@,
            final(self).navigation == old(self).navigation,
            final(self).segments@ == old(self).segments@,
            final(self).status@ == (StatusBarView {
                compute: compute_mode_of(has_gpu, use_gpu),
                ..old(self).status@
            }),
            final(self).header@ == old(self).header@,
    {
        self.status.set_compute_mode(compute_mode(has_gpu, use_gpu));
    }

    /// A chosen model is not on disk: the header shows no model loaded.
    /// Returns the message to show.
    pub fn model_missing(&mut self, model_id: &str) -> (toast: String)
        ensures
            final(self).controls@ == old(self).controls@,
            final(self).transcript@ == old(self).transcript@,
            final(self).navigation == old(self).navigation,
            final(self).segments@ == old(self).segments@,
            final(self).header@ == (HeaderView { status: Some(false), ..old(self).header@ }),
            final(self).status@ == old(self).status@,
            toast@ == "Model '"@ + model_id@ + "' is not downloaded. Go to Model settings to download it."@,
    {
        self.header.set_model_status(false, model_id);
        not_downloaded_message(model_id)
    }

    /// A dropped file is to be transcribed: without a model only a message
    /// is returned; otherwise the status shows the decoding.
    pub fn file_transcription_started(&mut self, engine_loaded: bool) -> (toast: Option<String>)
        ensures
            chrome_same(*old(self), *final(self)),
            final(self).segments@ == old(self).segments@,
            !engine_loaded ==> (toast matches Some(t) && t@
                == "No model loaded — download and select a model first"@) && final(self).status@
                == old(self).status@,
            engine_loaded ==> toast is None && final(self).status@ == with_status(
                old(self).status@,
                "Decoding file…"@,
            ),
            final(self).transcript@ == old(self).transcript@,
            final(self).controls@ == old(self).controls@,
    {
        if !engine_loaded {
            return Some(owned("No model loaded — download and select a model first"));
        }
        self.status.set_recording_status("Decoding file…");
        None
    }

    /// A file transcription finished: like a dictation (text, confidence
    /// and timed segments), but nothing goes to the history and success is
    /// announced.
    pub fn file_transcribed(&mut self, result: Result<(&str, Option<u32>, Vec<Segment>), &str>) -> (f: Finished)
        requires
            old(self).transcript@.messages.len() < usize::MAX,
        ensures
            chrome_same(*old(self), *final(self)),
            final(self).controls@ == old(self).controls@,
            f.entry is None,
            match result {
                Ok((cleaned, confidence, segs)) => {
                    &&& final(self).transcript@ == (TranscriptState {
                        confidence: confidence_text(confidence),
                        ..with_message(old(self).transcript@, cleaned@)
                    })
                    &&& final(self).status@ == with_status(old(self).status@, "Ready"@)
                    &&& final(self).segments@ == segs@
                    &&& f.toast matches Some(t) && t@ == "File transcription complete"@
                    &&& cleaned@.len() > 0 ==> (f.copy matches Some(c) && c@ == cleaned@)
                    &&& cleaned@.len() == 0 ==> f.copy is None
                },
                Err(msg) => {
                    &&& final(self).transcript@ == old(self).transcript@
                    &&& final(self).status@ == with_status(old(self).status@, "Error"@)
                    &&& final(self).segments@ == old(self).segments@
                    &&& f.copy is None
                    &&& f.toast matches Some(t) && t@ == msg@
                },
            },
    {
        match result {
            Ok((cleaned, confidence, segs)) => {
                self.transcript.append_text(cleaned);
                self.transcript.set_confidence(confidence);
                self.status.set_recording_status("Ready");
                self.segments = segs;
                let copy = if cleaned.unicode_len() == 0 {
                    None
                } else {
                    Some(owned(cleaned))
                };
                Finished { copy, entry: None, toast: Some(owned("File transcription complete")) }
            },
            Err(msg) => {
                self.status.set_recording_status("Error");
                Finished { copy: None, entry: None, toast: Some(owned(msg)) }
            },
        }
    }

    /// The capture was asked to start. On success the controls, the
    /// transcript and the status bar switch to recording; on failure a
    /// message is returned and nothing changes.
    pub fn recording_started(&mut self, result: Result<(), &str>) -> (toast: Option<String>)
        ensures
            chrome_same(*old(self), *final(self)),
            match result {
                Ok(_) => toast is None && final(self).controls@ == (ControlsView {
                    recording: true,
                    ..old(self).controls@
                }) && final(self).transcript@ == (TranscriptState {
                    recording: true,
                    ..old(self).transcript@
                }) && final(self).status@ == with_status(old(self).status@, "Recording…"@),
                Err(e) => (toast matches Some(t) && t@ == "Failed to start recording: "@ + e@)
                    && final(self).controls@ == old(self).controls@ && final(self).transcript@
                    == old(self).transcript@ && final(self).status@ == old(self).status@,
            },
            final(self).segments@ == old(self).segments@,
    {
        match result {
            Ok(()) => {
                self.controls.set_recording_state(true);
                self.transcript.set_recording(true);
                self.status.set_recording_status("Recording…");
                None
            },
            Err(e) => {
                let mut t = owned("Failed to start recording: ");
                push_str(&mut t, e);
                Some(t)
            },
        }
    }

    /// The recording was paused.
    pub fn paused(&mut self)
        ensures
            chrome_same(*old(self), *final(self)),
            final(self).segments@ == old(self).segments@,
            final(self).controls@ == (ControlsView { paused: true, ..old(self).controls@ }),
            final(self).status@ == with_status(old(self).status@, "Paused"@),
            final(self).transcript@ == old(self).transcript@,
    {
        self.controls.set_paused_state(true);
        self.status.set_recording_status("Paused");
    }

    /// The recording was resumed.
    pub fn resumed(&mut self)
        ensures
            chrome_same(*old(self), *final(self)),
            final(self).segments@ == old(self).segments@,
            final(self).controls@ == (ControlsView { paused: false, ..old(self).controls@ }),
            final(self).status@ == with_status(old(self).status@, "Recording…"@),
            final(self).transcript@ == old(self).transcript@,
    {
        self.controls.set_paused_state(false);
        self.status.set_recording_status("Recording…");
    }

    /// Stop was pressed. `stopped` is what stopping the capture gave:
    /// whether any audio was recorded, or the error. `engine_loaded` says
    /// whether a model is ready.
    pub fn stopped(&mut self, stopped: Result<bool, &str>, engine_loaded: bool) -> (o: StopOutcome)
        ensures
            chrome_same(*old(self), *final(self)),
            match stopped {
                Err(e) => (o matches StopOutcome::Failed(t) && t@ == "Error stopping recording: "@
                    + e@) && final(self).controls@ == old(self).controls@ && final(self).transcript@
                    == old(self).transcript@ && final(self).status@ == old(self).status@,
                Ok(has_audio) => {
                    &&& final(self).controls@ == idle(old(self).controls@)
                    &&& final(self).transcript@ == (TranscriptState {
                        recording: false,
                        ..old(self).transcript@
                    })
                    &&& !has_audio ==> o == StopOutcome::NoAudio && final(self).status@
                        == with_status(old(self).status@, "Ready"@)
                    &&& has_audio && !engine_loaded ==> o == StopOutcome::NoModel
                        && final(self).status@ == with_status(old(self).status@, "No model loaded"@)
                    &&& has_audio && engine_loaded ==> o == StopOutcome::Transcribe
                        && final(self).status@ == with_status(old(self).status@, "Transcribing…"@)
                },
            },
            final(self).segments@ == old(self).segments@,
    {
        let has_audio = match stopped {
            Err(e) => {
                let mut t = owned("Error stopping recording: ");
                push_str(&mut t, e);
                return StopOutcome::Failed(t);
            },
            Ok(b) => b,
        };
        self.controls.set_recording_state(false);
        self.controls.set_paused_state(false);
        self.transcript.set_recording(false);
        if !has_audio {
            self.status.set_recording_status("Ready");
            return StopOutcome::NoAudio;
        }
        if !engine_loaded {
            self.status.set_recording_status("No model loaded");
            return StopOutcome::NoModel;
        }
        self.status.set_recording_status("Transcribing…");
        StopOutcome::Transcribe
    }

    /// The message shown for a stop outcome, if any.
    pub fn stop_message(o: &StopOutcome) -> (s: Option<String>)
        ensures
            match o {
                StopOutcome::Failed(t) => s matches Some(m) && m@ == t@,
                StopOutcome::NoAudio => s matches Some(m) && m@ == "No audio recorded"@,
                StopOutcome::NoModel => s matches Some(m) && m@
                    == "No model loaded — download and select a model first"@,
                StopOutcome::Transcribe => s is None,
            },
    {
        match o {
            StopOutcome::Failed(t) => Some(owned(t.as_str())),
            StopOutcome::NoAudio => Some(owned("No audio recorded")),
            StopOutcome::NoModel => Some(owned("No model loaded — download and select a model first")),
            StopOutcome::Transcribe => None,
        }
    }

    /// The settings a transcription runs with: threads and beam size from
    /// the performance page (or this machine's default and 5), translation
    /// from the Translate toggle, the language from the language page (none
    /// for auto-detect), the initial prompt from the performance page.
    pub fn transcribe_settings(
        &self,
        perf: Option<&PerformancePage>,
        language: Option<&LanguagePage>,
    ) -> (t: TranscribeSettings)
        ensures
            match perf {
                Some(p) => t.n_threads == p@.threads && t.beam_size == p@.beam && match t.initial_prompt {
                    Some(s) => s@ == p@.prompt && p@.prompt.len() > 0,
                    None => p@.prompt.len() == 0,
                },
                None => 1 <= t.n_threads <= 8 && t.beam_size == 5 && t.initial_prompt is None,
            },
            t.translate == self.controls@.translate_active,
            match language {
                Some(l) => if l.spec_auto_detect() || l.spec_selected() >= 20 {
                    t.language is None
                } else {
                    t.language matches Some(c) && c@ == lang_code(l.spec_selected() as int)
                },
                None => t.language is None,
            },
    {
        let (n_threads, beam_size, initial_prompt) = match perf {
            Some(p) => (p.get_thread_count(), p.get_beam_size(), p.get_initial_prompt()),
            None => (default_thread_count(), 5, None),
        };
        let language = match language {
            Some(l) => l.selected_language_code(),
            None => None,
        };
        TranscribeSettings {
            n_threads,
            beam_size,
            translate: self.controls.is_translate_active(),
            language,
            initial_prompt,
        }
    }

    /// A transcription finished. On success (the cleaned-up text, its
    /// confidence as a whole percentage or `None` when none was reported, and
    /// its timed segments) the text becomes a new message, the confidence is
    /// shown, the status is "Ready" and the segments are kept; a non-empty
    /// text is copied and recorded in the history under `language` and
    /// `model`. On failure the message is shown and the status is "Error".
    pub fn transcribed(
        &mut self,
        result: Result<(&str, Option<u32>, Vec<Segment>), &str>,
        language: &str,
        model: &str,
    ) -> (f: Finished)
        requires
            old(self).transcript@.messages.len() < usize::MAX,
            match result {
                Ok((cleaned, _, _)) => cleaned.len() > 60 ==> is_char_boundary(cleaned.spec_bytes(), 60),
                Err(_) => true,
            },
        ensures
            chrome_same(*old(self), *final(self)),
            final(self).controls@ == old(self).controls@,
            match result {
                Ok((cleaned, confidence, segs)) => {
                    &&& final(self).transcript@ == (TranscriptState {
                        confidence: confidence_text(confidence),
                        ..with_message(old(self).transcript@, cleaned@)
                    })
                    &&& final(self).status@ == with_status(old(self).status@, "Ready"@)
                    &&& final(self).segments@ == segs@
                    &&& f.toast is None
                    &&& cleaned@.len() > 0 ==> (f.copy matches Some(c) && c@ == cleaned@) && (
                    f.entry matches Some(e) && e@.text == cleaned@ && e@.title == dictation_title_of(
                        cleaned,
                    ) && e@.language == language@ && e@.model == model@ && e@.duration_secs == 0
                        && is_hyphenated_uuid(e@.id) && is_minute_stamp(e@.timestamp))
                    &&& cleaned@.len() == 0 ==> f.copy is None && f.entry is None
                },
                Err(msg) => {
                    &&& final(self).transcript@ == old(self).transcript@
                    &&& final(self).status@ == with_status(old(self).status@, "Error"@)
                    &&& final(self).segments@ == old(self).segments@
                    &&& f.copy is None && f.entry is None
                    &&& f.toast matches Some(t) && t@ == msg@
                },
            },
    {
        match result {
            Ok((cleaned, confidence, segs)) => {
                self.transcript.append_text(cleaned);
                self.transcript.set_confidence(confidence);
                self.status.set_recording_status("Ready");
                self.segments = segs;
                if cleaned.unicode_len() == 0 {
                    return Finished { copy: None, entry: None, toast: None };
                }
                let entry = HistoryEntry::for_dictation(cleaned, owned(language), owned(model));
                Finished { copy: Some(owned(cleaned)), entry: Some(entry), toast: None }
            },
            Err(msg) => {
                self.status.set_recording_status("Error");
                Finished { copy: None, entry: None, toast: Some(owned(msg)) }
            },
        }
    }

    /// The recording was cancelled: the controls go idle, the transcript
    /// stops recording, the status is "Ready". Returns the message to show.
    pub fn cancelled(&mut self) -> (toast: String)
        ensures
            chrome_same(*old(self), *final(self)),
            final(self).controls@ == idle(old(self).controls@),
            final(self).transcript@ == (TranscriptState { recording: false, ..old(self).transcript@ }),
            final(self).status@ == with_status(old(self).status@, "Ready"@),
            toast@ == "Recording cancelled"@,
            final(self).segments@ == old(self).segments@,
    {
        self.controls.set_recording_state(false);
        self.controls.set_paused_state(false);
        self.transcript.set_recording(false);
        self.status.set_recording_status("Ready");
        owned("Recording cancelled")
    }

    /// Copy: the whole transcript, when there is any.
    pub fn copy_request(&self) -> (r: Option<String>)
        ensures
            match r {
                Some(t) => t@ == joined(self.transcript@.messages) && t@.len() > 0,
                None => joined(self.transcript@.messages).len() == 0,
            },
    {
        let text = self.transcript.get_text();
        if text.unicode_len() == 0 {
            None
        } else {
            Some(text)
        }
    }

    /// The startup update check answered: a newer release is announced in
    /// the status bar; no answer (up to date, check turned off or failed)
    /// changes nothing.
    pub fn update_checked(&mut self, info: Option<&UpdateInfo>)
        ensures
            match info {
                Some(u) => final(self).status@ == (StatusBarView {
                    update_visible: true,
                    update_label: update_text(u.latest_version@),
                    ..old(self).status@
                }),
                None => final(self).status@ == old(self).status@,
            },
            chrome_same(*old(self), *final(self)),
            final(self).controls@ == old(self).controls@,
            final(self).transcript@ == old(self).transcript@,
            final(self).segments@ == old(self).segments@,
    {
        match info {
            Some(u) => self.status.show_update_available(u.latest_version.as_str()),
            None => {},
        }
    }

    /// Clear the transcript.
    pub fn clear(&mut self)
        ensures
            chrome_same(*old(self), *final(self)),
            final(self).segments@ == old(self).segments@,
            final(self).transcript@ == cleared(old(self).transcript@),
            final(self).controls@ == old(self).controls@,
            final(self).status@ == old(self).status@,
    {
        self.transcript.clear();
    }

    /// Save: the text to write, or the message that there is nothing to save.
    pub fn save_request(&self) -> (r: Result<String, String>)
        ensures
            match r {
                Ok(t) => t@ == joined(self.transcript@.messages) && t@.len() > 0,
                Err(m) => m@ == "Nothing to save"@ && joined(self.transcript@.messages).len() == 0,
            },
    {
        let text = self.transcript.get_text();
        if text.unicode_len() == 0 {
            Err(owned("Nothing to save"))
        } else {
            Ok(text)
        }
    }

    /// Whether timed segments are kept for subtitle export.
    pub fn has_segments(&self) -> (b: bool)
        ensures
            b == (self.segments@.len() > 0),
    {
        self.segments.len() > 0
    }
}

/// A dictation that was recorded and transcribed can be copied back
/// exactly: after a successful transcription into an empty transcript,
/// Copy hands over the cleaned text.
pub proof fn law_transcribed_text_is_copied(t: TranscriptState, cleaned: Seq<char>)
    requires
        t.messages.len() == 0,
    ensures
        joined(with_message(t, cleaned).messages) == cleaned,
{
    assert(with_message(t, cleaned).messages =~= seq![cleaned]);
}

} // verus!
