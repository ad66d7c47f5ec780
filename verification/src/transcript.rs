//! The transcript panel: one selectable message per dictation, the live
//! preview while recording, the timer and session statistics, the result
//! controls (transform actions, variant selector, voice edit), the summary
//! and chapters, and the segmented decode indicator.

use vstd::prelude::*;
use crate::text::{
    decimal, decimal2, push_str, push_char, push_decimal, push_decimal2, owned, is_blank,
    has_non_ws,
};

verus! {

/// Number of cells in the segmented decode indicator.
pub const SEGMENT_COUNT: usize = 24;

/// Width of the lit window that sweeps across the cells while decoding.
pub const SWEEP_WINDOW: usize = 6;

/// The texts of a list of strings.
pub open spec fn texts(v: Seq<String>) -> Seq<Seq<char>> {
    v.map_values(|s: String| s@)
}

/// Messages joined by blank lines.
pub open spec fn joined(m: Seq<Seq<char>>) -> Seq<char>
    decreases m.len(),
{
    if m.len() == 0 {
        Seq::empty()
    } else if m.len() == 1 {
        m[0]
    } else {
        joined(m.drop_last()) + "\n\n"@ + m.last()
    }
}

/// The timer as minutes and seconds, each padded to two digits.
pub open spec fn timer_text(seconds: nat) -> Seq<char> {
    decimal2(seconds / 60) + ":"@ + decimal2(seconds % 60)
}

/// "N word(s)", followed by " · V wpm" when a rate is known; empty for no words.
pub open spec fn stats_text(words: nat, wpm: Option<u32>) -> Seq<char> {
    if words == 0 {
        Seq::empty()
    } else {
        let base = decimal(words) + " "@ + (if words == 1 { "word"@ } else { "words"@ });
        match wpm {
            Some(v) => base + " · "@ + decimal(v as nat) + " wpm"@,
            None => base,
        }
    }
}

/// A chapter line: timestamp and title.
pub open spec fn chapter_row(ts: Seq<char>, title: Seq<char>) -> Seq<char> {
    ts + "  —  "@ + title
}

/// Whether cell `i` of `n` is lit when the sweep is at position `pos`.
pub open spec fn sweep_lit(i: int, n: int, pos: int) -> bool {
    (i + n - pos % n) % n < SWEEP_WINDOW
}

/// How many of `n` cells a decode percentage lights: the percentage clamped
/// to 0..=100, scaled to the cells and rounded to the nearest count.
pub open spec fn progress_lit(pct: int, n: int) -> int {
    let p = if pct < 0 {
        0
    } else if pct > 100 {
        100
    } else {
        pct
    };
    (p * n + 50) / 100
}

/// The lit-cell count of a decode percentage over `n` cells.
pub fn progress_cells(pct: i32, n: usize) -> (lit: usize)
    requires
        n <= 1000,
    ensures
        lit == progress_lit(pct as int, n as int),
{
    let p: usize = if pct < 0 {
        0
    } else if pct > 100 {
        100
    } else {
        pct as usize
    };
    assert(p * n <= 100 * 1000) by (nonlinear_arith)
        requires
            p <= 100,
            n <= 1000,
    ;
    (p * n + 50) / 100
}

/// How the voice-edit button looks.
pub struct VoiceEditLook {
    pub icon: &'static str,
    pub label: &'static str,
    pub style: &'static str,
}

pub open spec fn voice_edit_spec(recording: bool, l: VoiceEditLook) -> bool {
    if recording {
        l.icon@ == "media-playback-stop-symbolic"@ && l.label@ == "Stop edit"@ && l.style@
            == "destructive-action"@
    } else {
        l.icon@ == "document-edit-symbolic"@ && l.label@ == "Voice edit"@ && l.style@
            == "suggested-action"@
    }
}

/// The voice-edit button while recording an instruction or idle.
pub fn voice_edit_look(recording: bool) -> (l: VoiceEditLook)
    ensures
        voice_edit_spec(recording, l),
{
    if recording {
        VoiceEditLook {
            icon: "media-playback-stop-symbolic",
            label: "Stop edit",
            style: "destructive-action",
        }
    } else {
        VoiceEditLook {
            icon: "document-edit-symbolic",
            label: "Voice edit",
            style: "suggested-action",
        }
    }
}

pub struct TranscriptView {
    messages: Vec<String>,
    selected: Option<usize>,
    live_preview: Option<String>,
    placeholder_visible: bool,
    timer: String,
    stats: String,
    recording: bool,
    chip_presets: Vec<String>,
    chips_sensitive: bool,
    actions_visible: bool,
    variant_labels: Vec<String>,
    variant_active: usize,
    variant_visible: bool,
    voice_edit_visible: bool,
    voice_edit_recording: bool,
    summary_visible: bool,
    summary_expanded: bool,
    summary: String,
    chapters: Vec<String>,
    cells: Vec<bool>,
    sweep_pos: usize,
    decoding: bool,
    segments_visible: bool,
    confidence: String,
}

pub struct TranscriptState {
    pub messages: Seq<Seq<char>>,
    pub selected: Option<usize>,
    pub live_preview: Option<Seq<char>>,
    pub placeholder_visible: bool,
    pub timer: Seq<char>,
    pub stats: Seq<char>,
    pub recording: bool,
    pub chip_presets: Seq<Seq<char>>,
    pub chips_sensitive: bool,
    pub actions_visible: bool,
    pub variant_labels: Seq<Seq<char>>,
    pub variant_active: usize,
    pub variant_visible: bool,
    pub voice_edit_visible: bool,
    pub voice_edit_recording: bool,
    pub summary_visible: bool,
    pub summary_expanded: bool,
    pub summary: Seq<char>,
    pub chapters: Seq<Seq<char>>,
    /// Which decode cells are lit.
    pub cells: Seq<bool>,
    /// Where the sweep stands within its cycle over the cells.
    pub sweep_pos: nat,
    pub decoding: bool,
    /// The decode cells are shown (in place of the waveform).
    pub segments_visible: bool,
    /// The confidence label.
    pub confidence: Seq<char>,
}

impl View for TranscriptView {
    type V = TranscriptState;

    closed spec fn view(&self) -> TranscriptState {
        TranscriptState {
            messages: texts(self.messages@),
            selected: self.selected,
            live_preview: match self.live_preview {
                Some(t) => Some(t@),
                None => None,
            },
            placeholder_visible: self.placeholder_visible,
            timer: self.timer@,
            stats: self.stats@,
            recording: self.recording,
            chip_presets: texts(self.chip_presets@),
            chips_sensitive: self.chips_sensitive,
            actions_visible: self.actions_visible,
            variant_labels: texts(self.variant_labels@),
            variant_active: self.variant_active,
            variant_visible: self.variant_visible,
            voice_edit_visible: self.voice_edit_visible,
            voice_edit_recording: self.voice_edit_recording,
            summary_visible: self.summary_visible,
            summary_expanded: self.summary_expanded,
            summary: self.summary@,
            chapters: texts(self.chapters@),
            cells: self.cells@,
            sweep_pos: self.sweep_pos as nat,
            decoding: self.decoding,
            segments_visible: self.segments_visible,
            confidence: self.confidence@,
        }
    }
}

/// The confidence label for a whole percentage, or a dash when the
/// transcription reported none.
pub open spec fn confidence_text(percent: Option<u32>) -> Seq<char> {
    match percent {
        Some(p) => decimal(p as nat) + "%"@,
        None => "—"@,
    }
}

/// The result controls hidden: no variant selector, actions or voice edit.
pub open spec fn controls_hidden(s: TranscriptState) -> TranscriptState {
    TranscriptState { variant_visible: false, actions_visible: false, voice_edit_visible: false, ..s }
}

/// The summary section hidden and emptied.
pub open spec fn summary_cleared(s: TranscriptState) -> TranscriptState {
    TranscriptState { summary_visible: false, summary: Seq::empty(), chapters: Seq::empty(), ..s }
}

/// Everything a `clear` removes: messages, selection, preview, statistics,
/// result controls and summary; the placeholder comes back.
pub open spec fn cleared(s: TranscriptState) -> TranscriptState {
    summary_cleared(
        controls_hidden(
            TranscriptState {
                messages: Seq::empty(),
                selected: None,
                live_preview: None,
                placeholder_visible: true,
                stats: Seq::empty(),
                confidence: "—"@,
                ..s
            },
        ),
    )
}

/// A message appended and selected; the placeholder hides.
pub open spec fn with_message(s: TranscriptState, t: Seq<char>) -> TranscriptState {
    TranscriptState {
        messages: s.messages.push(t),
        selected: Some(s.messages.len() as usize),
        placeholder_visible: false,
        ..s
    }
}

pub(crate) fn copy_strings(src: &[String]) -> (v: Vec<String>)
    ensures
        texts(v@) == texts(src@),
{
    let mut v: Vec<String> = Vec::new();
    let mut i: usize = 0;
    while i < src.len()
        invariant
            i <= src.len(),
            texts(v@) == texts(src@.take(i as int)),
        decreases src.len() - i,
    {
        v.push(src[i].clone());
        assert(texts(src@.take(i + 1)) == texts(src@.take(i as int)).push(src@[i as int]@));
        i = i + 1;
    }
    assert(src@.take(src.len() as int) == src@);
    v
}

impl TranscriptView {
    pub closed spec fn wf(self) -> bool {
        self.cells@.len() == SEGMENT_COUNT && self.sweep_pos < SEGMENT_COUNT
    }

    /// An empty transcript: placeholder shown, timer at 00:00, every result
    /// control and the summary hidden, the waveform shown.
    pub fn new() -> (t: Self)
        ensures
            t.wf(),
            t@.messages.len() == 0,
            t@.selected is None,
            t@.live_preview is None,
            t@.placeholder_visible,
            t@.timer == "00:00"@,
            t@.stats.len() == 0,
            !t@.recording,
            t@.chip_presets.len() == 0,
            t@.chips_sensitive,
            !t@.actions_visible,
            !t@.variant_visible,
            !t@.voice_edit_visible,
            !t@.summary_visible,
            !t@.decoding,
            !t@.segments_visible,
            forall|i: int| 0 <= i < SEGMENT_COUNT ==> !t@.cells[i],
            t@.confidence == "—"@,
    {
        let mut cells: Vec<bool> = Vec::new();
        let mut i: usize = 0;
        while i < SEGMENT_COUNT
            invariant
                i <= SEGMENT_COUNT,
                cells.len() == i,
                forall|j: int| 0 <= j < i ==> !cells@[j],
            decreases SEGMENT_COUNT - i,
        {
            cells.push(false);
            i = i + 1;
        }
        let t = TranscriptView {
            messages: Vec::new(),
            selected: None,
            live_preview: None,
            placeholder_visible: true,
            timer: owned("00:00"),
            stats: String::new(),
            recording: false,
            chip_presets: Vec::new(),
            chips_sensitive: true,
            actions_visible: false,
            variant_labels: Vec::new(),
            variant_active: 0,
            variant_visible: false,
            voice_edit_visible: false,
            voice_edit_recording: false,
            summary_visible: false,
            summary_expanded: false,
            summary: String::new(),
            chapters: Vec::new(),
            cells,
            sweep_pos: 0,
            decoding: false,
            segments_visible: false,
            confidence: owned("—"),
        };
        assert(t@.messages =~= Seq::<Seq<char>>::empty());
        assert(t@.chip_presets =~= Seq::<Seq<char>>::empty());
        t
    }

    /// Append a message, select it and return its index.
    pub fn add_message(&mut self, text: &str) -> (index: usize)
        requires
            old(self)@.messages.len() < usize::MAX,
        ensures
            final(self).wf() == old(self).wf(),
            final(self)@ == with_message(old(self)@, text@),
            index == old(self)@.messages.len(),
    {
        self.placeholder_visible = false;
        let index = self.messages.len();
        self.messages.push(owned(text));
        self.selected = Some(index);
        assert(texts(self.messages@) =~= texts(old(self).messages@).push(text@));
        index
    }

    /// Replace the text of message `idx`; an index past the end changes nothing.
    pub fn update_message(&mut self, idx: usize, text: &str)
        ensures
            final(self).wf() == old(self).wf(),
            final(self)@ == (if idx < old(self)@.messages.len() {
                TranscriptState { messages: old(self)@.messages.update(idx as int, text@), ..old(self)@ }
            } else {
                old(self)@
            }),
    {
        if idx < self.messages.len() {
            self.messages.set(idx, owned(text));
            assert(texts(self.messages@) =~= texts(old(self).messages@).update(idx as int, text@));
        }
    }

    /// Select message `idx` (an index past the end highlights nothing).
    pub fn set_selected_message(&mut self, idx: usize)
        ensures
            final(self).wf() == old(self).wf(),
            final(self)@ == (TranscriptState { selected: Some(idx), ..old(self)@ }),
    {
        self.selected = Some(idx);
    }

    /// Whether message `i` is highlighted as selected.
    pub fn is_selected(&self, i: usize) -> (b: bool)
        ensures
            b == (i < self@.messages.len() && self@.selected == Some(i)),
    {
        i < self.messages.len() && self.selected == Some(i)
    }

    /// Number of messages currently shown.
    pub fn message_count(&self) -> (n: usize)
        ensures
            n == self@.messages.len(),
    {
        self.messages.len()
    }

    /// Show transient text while recording; blank text removes the preview.
    pub fn set_live_preview(&mut self, text: &str)
        ensures
            final(self).wf() == old(self).wf(),
            final(self)@ == (if has_non_ws(text@) {
                TranscriptState {
                    live_preview: Some(text@),
                    placeholder_visible: false,
                    ..old(self)@
                }
            } else {
                TranscriptState { live_preview: None, ..old(self)@ }
            }),
    {
        if is_blank(text) {
            self.clear_live_preview();
            return;
        }
        self.placeholder_visible = false;
        self.live_preview = Some(owned(text));
    }

    /// Remove the live preview.
    pub fn clear_live_preview(&mut self)
        ensures
            final(self).wf() == old(self).wf(),
            final(self)@ == (TranscriptState { live_preview: None, ..old(self)@ }),
    {
        self.live_preview = None;
    }

    /// Append text as a new message.
    pub fn append_text(&mut self, text: &str)
        requires
            old(self)@.messages.len() < usize::MAX,
        ensures
            final(self).wf() == old(self).wf(),
            final(self)@ == with_message(old(self)@, text@),
    {
        self.add_message(text);
    }

    /// Replace everything with a single message (nothing for empty text).
    pub fn set_text(&mut self, text: &str)
        ensures
            final(self).wf() == old(self).wf(),
            final(self)@ == (if text@.len() == 0 {
                cleared(old(self)@)
            } else {
                with_message(cleared(old(self)@), text@)
            }),
    {
        self.clear();
        if text.unicode_len() != 0 {
            self.add_message(text);
        }
    }

    /// Clear messages, preview, statistics, result controls and summary.
    pub fn clear(&mut self)
        ensures
            final(self).wf() == old(self).wf(),
            final(self)@ == cleared(old(self)@),
    {
        self.clear_live_preview();
        self.messages = Vec::new();
        self.selected = None;
        self.placeholder_visible = true;
        self.set_confidence(None);
        self.set_stats(0, None);
        self.hide_result_controls();
        self.clear_summary();
        assert(texts(self.messages@) =~= Seq::<Seq<char>>::empty());
        assert(texts(self.chapters@) =~= Seq::<Seq<char>>::empty());
    }

    /// Show the transcription's confidence as a whole percentage (`None`
    /// when it reported none).
    pub fn set_confidence(&mut self, percent: Option<u32>)
        ensures
            final(self).wf() == old(self).wf(),
            final(self)@ == (TranscriptState { confidence: confidence_text(percent), ..old(self)@ }),
    {
        match percent {
            Some(p) => {
                let mut t = String::new();
                push_decimal(&mut t, p as u64);
                push_str(&mut t, "%");
                self.confidence = t;
            },
            None => {
                self.confidence = owned("—");
            },
        }
    }

    /// Show the recording time as "mm:ss".
    pub fn set_timer(&mut self, seconds: u64)
        ensures
            final(self).wf() == old(self).wf(),
            final(self)@ == (TranscriptState { timer: timer_text(seconds as nat), ..old(self)@ }),
    {
        let mut t = String::new();
        push_decimal2(&mut t, seconds / 60);
        push_char(&mut t, ':');
        push_decimal2(&mut t, seconds % 60);
        assert(t@ == Seq::<char>::empty() + decimal2((seconds / 60) as nat) + seq![':'] + decimal2(
            (seconds % 60) as nat,
        ));
        assert(t@ =~= timer_text(seconds as nat)) by {
            reveal_strlit(":");
        }
        self.timer = t;
    }

    /// Show the session statistics ("128 words · 96 wpm"); no words clears them.
    pub fn set_stats(&mut self, words: usize, wpm: Option<u32>)
        ensures
            final(self).wf() == old(self).wf(),
            final(self)@ == (TranscriptState { stats: stats_text(words as nat, wpm), ..old(self)@ }),
    {
        if words == 0 {
            self.stats = String::new();
            return;
        }
        let mut s = String::new();
        push_decimal(&mut s, words as u64);
        push_str(&mut s, " ");
        if words == 1 {
            push_str(&mut s, "word");
        } else {
            push_str(&mut s, "words");
        }
        match wpm {
            Some(v) => {
                push_str(&mut s, " · ");
                push_decimal(&mut s, v as u64);
                push_str(&mut s, " wpm");
            },
            None => {},
        }
        assert(s@ =~= stats_text(words as nat, wpm));
        self.stats = s;
    }

    /// The timer text.
    pub fn timer(&self) -> (s: &str)
        ensures
            s@ == self@.timer,
    {
        self.timer.as_str()
    }

    /// The confidence label.
    pub fn confidence(&self) -> (s: &str)
        ensures
            s@ == self@.confidence,
    {
        self.confidence.as_str()
    }

    /// The statistics text.
    pub fn stats(&self) -> (s: &str)
        ensures
            s@ == self@.stats,
    {
        self.stats.as_str()
    }

    /// Replace the transform actions with one per preset name.
    pub fn set_chip_presets(&mut self, names: &[String])
        ensures
            final(self).wf() == old(self).wf(),
            final(self)@ == (TranscriptState { chip_presets: texts(names@), ..old(self)@ }),
    {
        self.chip_presets = copy_strings(names);
    }

    /// Enable or disable the transform actions.
    pub fn set_chips_sensitive(&mut self, on: bool)
        ensures
            final(self).wf() == old(self).wf(),
            final(self)@ == (TranscriptState { chips_sensitive: on, ..old(self)@ }),
    {
        self.chips_sensitive = on;
    }

    /// Show or hide the transform actions.
    pub fn set_chips_visible(&mut self, on: bool)
        ensures
            final(self).wf() == old(self).wf(),
            final(self)@ == (TranscriptState { actions_visible: on, ..old(self)@ }),
    {
        self.actions_visible = on;
    }

    /// Rebuild the raw/variant selector; it shows only when there is more
    /// than the raw entry.
    pub fn set_variant_selector(&mut self, labels: &[String], active: usize)
        ensures
            final(self).wf() == old(self).wf(),
            final(self)@ == (TranscriptState {
                variant_labels: texts(labels@),
                variant_active: active,
                variant_visible: labels@.len() > 1,
                ..old(self)@
            }),
    {
        self.variant_labels = copy_strings(labels);
        self.variant_active = active;
        self.variant_visible = labels.len() > 1;
    }

    /// The user picked entry `index` of the variant selector: it becomes the
    /// selected entry, and the index is what the variant handler receives,
    /// once per pick. Rebuilding the selector (`set_variant_selector`)
    /// reports nothing.
    pub fn variant_selected(&mut self, index: usize) -> (reported: usize)
        ensures
            final(self).wf() == old(self).wf(),
            final(self)@ == (TranscriptState { variant_active: index, ..old(self)@ }),
            reported == index,
    {
        self.variant_active = index;
        index
    }

    /// Show or hide the voice-edit button.
    pub fn set_voice_edit_visible(&mut self, on: bool)
        ensures
            final(self).wf() == old(self).wf(),
            final(self)@ == (TranscriptState { voice_edit_visible: on, ..old(self)@ }),
    {
        self.voice_edit_visible = on;
    }

    /// Switch the voice-edit button between idle and recording an instruction.
    pub fn set_voice_edit_recording(&mut self, recording: bool) -> (l: VoiceEditLook)
        ensures
            final(self).wf() == old(self).wf(),
            final(self)@ == (TranscriptState { voice_edit_recording: recording, ..old(self)@ }),
            voice_edit_spec(recording, l),
    {
        self.voice_edit_recording = recording;
        voice_edit_look(recording)
    }

    /// Show "Summarizing…" (with no chapters) or hide the summary section.
    pub fn set_summary_loading(&mut self, on: bool)
        ensures
            final(self).wf() == old(self).wf(),
            final(self)@ == (TranscriptState {
                summary_visible: on,
                summary_expanded: on,
                summary: if on { "Summarizing…"@ } else { Seq::empty() },
                chapters: if on { Seq::empty() } else { old(self)@.chapters },
                ..old(self)@
            }),
    {
        self.summary_visible = on;
        self.summary_expanded = on;
        if on {
            self.summary = owned("Summarizing…");
            self.chapters = Vec::new();
            assert(texts(self.chapters@) =~= Seq::<Seq<char>>::empty());
        } else {
            self.summary = String::new();
        }
    }

    /// Show the summary text and one line per chapter.
    pub fn set_summary(&mut self, summary: &str, chapters: &[(String, String)])
        ensures
            final(self).wf() == old(self).wf(),
            final(self)@.summary_visible,
            final(self)@.summary_expanded,
            final(self)@.summary == summary@,
            final(self)@.chapters.len() == chapters@.len(),
            forall|i: int|
                0 <= i < chapters@.len() ==> #[trigger] final(self)@.chapters[i] == chapter_row(
                    chapters@[i].0@,
                    chapters@[i].1@,
                ),
            final(self)@ == (TranscriptState {
                summary_visible: true,
                summary_expanded: true,
                summary: summary@,
                chapters: final(self)@.chapters,
                ..old(self)@
            }),
    {
        self.summary_visible = true;
        self.summary_expanded = true;
        self.summary = owned(summary);
        let mut rows: Vec<String> = Vec::new();
        let mut i: usize = 0;
        while i < chapters.len()
            invariant
                i <= chapters.len(),
                rows.len() == i,
                forall|j: int|
                    0 <= j < i ==> #[trigger] rows@[j]@ == chapter_row(
                        chapters@[j].0@,
                        chapters@[j].1@,
                    ),
            decreases chapters.len() - i,
        {
            let mut row = owned(chapters[i].0.as_str());
            push_str(&mut row, "  —  ");
            push_str(&mut row, chapters[i].1.as_str());
            rows.push(row);
            i = i + 1;
        }
        self.chapters = rows;
    }

    /// Hide and empty the summary section.
    pub fn clear_summary(&mut self)
        ensures
            final(self).wf() == old(self).wf(),
            final(self)@ == summary_cleared(old(self)@),
    {
        self.summary_visible = false;
        self.summary = String::new();
        self.chapters = Vec::new();
        assert(texts(self.chapters@) =~= Seq::<Seq<char>>::empty());
    }

    /// Hide the variant selector, the transform actions and voice edit.
    pub fn hide_result_controls(&mut self)
        ensures
            final(self).wf() == old(self).wf(),
            final(self)@ == controls_hidden(old(self)@),
    {
        self.variant_visible = false;
        self.actions_visible = false;
        self.voice_edit_visible = false;
    }

    /// Set the recording flag; returns whether the waveform data is to be
    /// dropped (when recording stops).
    pub fn set_recording(&mut self, recording: bool) -> (drop_waveform: bool)
        ensures
            final(self).wf() == old(self).wf(),
            final(self)@ == (TranscriptState { recording: recording, ..old(self)@ }),
            drop_waveform == !recording,
    {
        self.recording = recording;
        !recording
    }

    /// Show the decode cells in place of the waveform and restart the sweep.
    /// Returns whether a sweep timer has to be started (none was running).
    pub fn start_transcribing_anim(&mut self) -> (start_timer: bool)
        ensures
            old(self).wf() ==> final(self).wf(),
            final(self)@ == (TranscriptState {
                segments_visible: true,
                sweep_pos: 0,
                decoding: true,
                ..old(self)@
            }),
            start_timer == !old(self)@.decoding,
    {
        self.segments_visible = true;
        self.sweep_pos = 0;
        if self.decoding {
            return false;
        }
        self.decoding = true;
        true
    }

    /// One step of the sweep timer: light the window at the current position
    /// and advance. Returns whether the timer keeps running.
    pub fn sweep_tick(&mut self) -> (keep_running: bool)
        requires
            old(self).wf(),
        ensures
            final(self).wf(),
            keep_running == old(self)@.decoding,
            !keep_running ==> final(self)@ == old(self)@,
            keep_running ==> final(self)@ == (TranscriptState {
                cells: Seq::new(
                    SEGMENT_COUNT as nat,
                    |i: int| sweep_lit(i, SEGMENT_COUNT as int, old(self)@.sweep_pos as int),
                ),
                sweep_pos: ((old(self)@.sweep_pos + 1) % (SEGMENT_COUNT as nat)) as nat,
                ..old(self)@
            }),
    {
        if !self.decoding {
            return false;
        }
        let n = self.cells.len();
        let pos = self.sweep_pos;
        let mut cells: Vec<bool> = Vec::new();
        let mut i: usize = 0;
        while i < n
            invariant
                n == SEGMENT_COUNT,
                cells.len() == i,
                i <= n,
                forall|j: int| 0 <= j < i ==> cells@[j] == sweep_lit(j, n as int, pos as int),
            decreases n - i,
        {
            let lit = (i + n - (pos % n)) % n < SWEEP_WINDOW;
            cells.push(lit);
            i = i + 1;
        }
        self.cells = cells;
        self.sweep_pos = (pos + 1) % n;
        assert(self.cells@ =~= Seq::new(
            SEGMENT_COUNT as nat,
            |i: int| sweep_lit(i, SEGMENT_COUNT as int, pos as int),
        ));
        true
    }

    /// Show a determinate decode progress: stop the sweep and light the first
    /// cells in proportion to the percentage.
    pub fn set_decode_progress(&mut self, pct: i32)
        requires
            old(self).wf(),
        ensures
            final(self).wf(),
            final(self)@ == (TranscriptState {
                decoding: false,
                segments_visible: true,
                cells: Seq::new(SEGMENT_COUNT as nat, |i: int| i < progress_lit(pct as int, SEGMENT_COUNT as int)),
                ..old(self)@
            }),
    {
        self.decoding = false;
        self.segments_visible = true;
        let lit = progress_cells(pct, SEGMENT_COUNT);
        let n = self.cells.len();
        let mut cells: Vec<bool> = Vec::new();
        let mut i: usize = 0;
        while i < n
            invariant
                n == SEGMENT_COUNT,
                cells.len() == i,
                i <= n,
                lit == progress_lit(pct as int, SEGMENT_COUNT as int),
                forall|j: int| 0 <= j < i ==> cells@[j] == (j < lit),
            decreases n - i,
        {
            cells.push(i < lit);
            i = i + 1;
        }
        self.cells = cells;
        assert(self.cells@ =~= Seq::new(
            SEGMENT_COUNT as nat,
            |i: int| i < progress_lit(pct as int, SEGMENT_COUNT as int),
        ));
    }

    /// Stop the decode indicator and bring the waveform back.
    pub fn stop_transcribing_anim(&mut self)
        requires
            old(self).wf(),
        ensures
            final(self).wf(),
            final(self)@ == (TranscriptState {
                decoding: false,
                segments_visible: false,
                cells: Seq::new(SEGMENT_COUNT as nat, |i: int| false),
                ..old(self)@
            }),
    {
        self.decoding = false;
        self.segments_visible = false;
        let n = self.cells.len();
        let mut cells: Vec<bool> = Vec::new();
        let mut i: usize = 0;
        while i < n
            invariant
                n == SEGMENT_COUNT,
                cells.len() == i,
                i <= n,
                forall|j: int| 0 <= j < i ==> !cells@[j],
            decreases n - i,
        {
            cells.push(false);
            i = i + 1;
        }
        self.cells = cells;
        assert(self.cells@ =~= Seq::new(SEGMENT_COUNT as nat, |i: int| false));
    }

    /// Whether decode cell `i` is lit.
    pub fn is_cell_lit(&self, i: usize) -> (b: bool)
        requires
            self.wf(),
            i < SEGMENT_COUNT,
        ensures
            b == self@.cells[i as int],
    {
        self.cells[i]
    }

    /// All messages joined by blank lines.
    pub fn get_text(&self) -> (s: String)
        ensures
            s@ == joined(self@.messages),
    {
        let mut out = String::new();
        let n = self.messages.len();
        let mut i: usize = 0;
        while i < n
            invariant
                n == self.messages.len(),
                i <= n,
                out@ == joined(texts(self.messages@).take(i as int)),
            decreases n - i,
        {
            let ghost m = texts(self.messages@);
            assert(m.take(i + 1).drop_last() =~= m.take(i as int));
            if i > 0 {
                push_str(&mut out, "\n\n");
            }
            push_str(&mut out, self.messages[i].as_str());
            proof {
                if i == 0 {
                    assert(out@ =~= joined(m.take(1)));
                }
            }
            i = i + 1;
        }
        assert(texts(self.messages@).take(n as int) =~= texts(self.messages@));
        out
    }
}

/// Replacing the transcript with a text and reading it back gives that text.
pub proof fn law_set_text_round_trip(s: TranscriptState, t: Seq<char>)
    ensures
        joined(
            (if t.len() == 0 {
                cleared(s)
            } else {
                with_message(cleared(s), t)
            }).messages,
        ) == t,
{
    if t.len() != 0 {
        assert(with_message(cleared(s), t).messages =~= seq![t]);
    }
}

/// Adding a message keeps the earlier ones and appends its text after a
/// blank line.
pub proof fn law_add_appends(s: TranscriptState, t: Seq<char>)
    requires
        s.messages.len() > 0,
    ensures
        joined(with_message(s, t).messages) == joined(s.messages) + "\n\n"@ + t,
        with_message(s, t).selected == Some(s.messages.len() as usize),
{
    assert(with_message(s, t).messages.drop_last() =~= s.messages);
}

/// A determinate indicator of `n` cells lights nothing at 0 %, every cell at
/// 100 %, and never fewer cells for a higher percentage.
pub proof fn law_progress_monotone(a: int, b: int, n: int)
    requires
        a <= b,
        n >= 0,
    ensures
        progress_lit(a, n) <= progress_lit(b, n),
        progress_lit(0, n) == 0,
        progress_lit(100, n) == n,
        0 <= progress_lit(a, n) <= n,
{
    let pa = if a < 0 { 0 } else if a > 100 { 100 } else { a };
    let pb = if b < 0 { 0 } else if b > 100 { 100 } else { b };
    assert(pa <= pb);
    assert((pa * n + 50) / 100 <= (pb * n + 50) / 100) by (nonlinear_arith)
        requires
            0 <= pa <= pb,
            n >= 0,
    ;
    assert(0 <= (pa * n + 50) / 100 <= n) by (nonlinear_arith)
        requires
            0 <= pa <= 100,
            n >= 0,
    ;
    assert((100 * n + 50) / 100 == n) by (nonlinear_arith)
        requires
            n >= 0,
    ;
}

} // verus!
