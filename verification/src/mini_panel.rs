//! The compact dictation panel: a recording page (timer, level meter), a
//! transcribing page (decode sweep, elapsed time, live partial text) and a
//! result page (transcript, copied badge, result controls), with the header
//! that names the current state.

use vstd::prelude::*;
use crate::text::{decimal, decimal2, push_str, push_char, push_decimal, push_decimal2, owned};
use crate::transcript::{texts, stats_text, sweep_lit, progress_lit, progress_cells, copy_strings};

verus! {

/// Actions emitted by the mini panel's buttons and its close request.
#[derive(Debug, Clone, Copy, PartialEq, Eq, Structural)]
pub enum MiniPanelAction {
    Stop,
    Cancel,
    Paste,
    Copy,
    Again,
    Close,
    /// A transform was chosen (carries the preset index).
    Chip(usize),
    /// The raw/variant selector changed (carries the variant index, 0 = raw).
    Variant(usize),
    /// The "Voice edit" button was clicked.
    VoiceEdit,
}

/// The page the panel shows.
#[derive(Debug, Clone, Copy, PartialEq, Eq, Structural)]
pub enum PanelState {
    Recording,
    Transcribing,
    Result,
}

/// The coloured dot in the header.
#[derive(Debug, Clone, Copy, PartialEq, Eq, Structural)]
pub enum HeaderDot {
    Rec,
    Done,
}

/// Number of LEDs in the recording level meter.
pub const LED_COUNT: usize = 7;

/// Number of cells in the decode sweep.
pub const PANEL_SEGMENTS: usize = 22;

/// The colour class of LED `i` when `lit` LEDs are on (`None`: off).
pub open spec fn led_color(i: int, lit: int) -> Option<Seq<char>> {
    if i >= lit {
        None
    } else if i >= LED_COUNT - 1 {
        Some("r"@)
    } else if i >= LED_COUNT - 3 {
        Some("y"@)
    } else {
        Some("g"@)
    }
}

/// The colour class of one LED.
pub fn led_class(i: usize, lit: usize) -> (c: Option<&'static str>)
    ensures
        match c {
            Some(s) => led_color(i as int, lit as int) == Some(s@),
            None => led_color(i as int, lit as int) is None,
        },
{
    if i >= lit {
        None
    } else if i >= LED_COUNT - 1 {
        Some("r")
    } else if i >= LED_COUNT - 3 {
        Some("y")
    } else {
        Some("g")
    }
}

/// Tenths of a second elapsed after `ticks` sweep ticks of 90 ms, rounded.
pub open spec fn elapsed_tenths(ticks: nat) -> nat {
    (ticks * 9 + 5) / 10
}

/// The elapsed-time text, "S.T s".
pub open spec fn elapsed_text(tenths: nat) -> Seq<char> {
    decimal(tenths / 10) + "."@ + decimal(tenths % 10) + " s"@
}

/// The timer page's minutes:seconds and centiseconds texts.
pub open spec fn panel_timer(whole_secs: nat) -> Seq<char> {
    decimal2(whole_secs / 60) + ":"@ + decimal2(whole_secs % 60)
}

pub open spec fn panel_centis(centis: nat) -> Seq<char> {
    "."@ + decimal2(if centis > 99 { 99 } else { centis })
}

pub struct MiniPanel {
    state: PanelState,
    keep_on_top: bool,
    llm_indicator: bool,
    header: String,
    dot: Option<HeaderDot>,
    spinning: bool,
    rec_meta: String,
    timer: String,
    centis: String,
    level: usize,
    tr_meta_left: String,
    tr_meta_right: String,
    elapsed: String,
    partial: String,
    partial_visible: bool,
    cells: Vec<bool>,
    sweep_pos: usize,
    ticks: u32,
    decoding: bool,
    transcript: String,
    copied_badge: bool,
    result_stats: String,
    chip_presets: Vec<String>,
    chips_sensitive: bool,
    actions_visible: bool,
    variant_labels: Vec<String>,
    variant_active: usize,
    variant_visible: bool,
    voice_edit_visible: bool,
}

pub struct MiniPanelView {
    pub state: PanelState,
    pub keep_on_top: bool,
    pub llm_indicator: bool,
    pub header: Seq<char>,
    pub dot: Option<HeaderDot>,
    pub spinning: bool,
    pub rec_meta: Seq<char>,
    pub timer: Seq<char>,
    pub centis: Seq<char>,
    /// LEDs lit in the level meter.
    pub level: nat,
    pub tr_meta_left: Seq<char>,
    pub tr_meta_right: Seq<char>,
    pub elapsed: Seq<char>,
    pub partial: Seq<char>,
    pub partial_visible: bool,
    pub cells: Seq<bool>,
    pub sweep_pos: nat,
    pub ticks: u32,
    pub decoding: bool,
    pub transcript: Seq<char>,
    pub copied_badge: bool,
    pub result_stats: Seq<char>,
    pub chip_presets: Seq<Seq<char>>,
    pub chips_sensitive: bool,
    pub actions_visible: bool,
    pub variant_labels: Seq<Seq<char>>,
    pub variant_active: usize,
    pub variant_visible: bool,
    pub voice_edit_visible: bool,
}

impl View for MiniPanel {
    type V = MiniPanelView;

    closed spec fn view(&self) -> MiniPanelView {
        MiniPanelView {
            state: self.state,
            keep_on_top: self.keep_on_top,
            llm_indicator: self.llm_indicator,
            header: self.header@,
            dot: self.dot,
            spinning: self.spinning,
            rec_meta: self.rec_meta@,
            timer: self.timer@,
            centis: self.centis@,
            level: self.level as nat,
            tr_meta_left: self.tr_meta_left@,
            tr_meta_right: self.tr_meta_right@,
            elapsed: self.elapsed@,
            partial: self.partial@,
            partial_visible: self.partial_visible,
            cells: self.cells@,
            sweep_pos: self.sweep_pos as nat,
            ticks: self.ticks,
            decoding: self.decoding,
            transcript: self.transcript@,
            copied_badge: self.copied_badge,
            result_stats: self.result_stats@,
            chip_presets: texts(self.chip_presets@),
            chips_sensitive: self.chips_sensitive,
            actions_visible: self.actions_visible,
            variant_labels: texts(self.variant_labels@),
            variant_active: self.variant_active,
            variant_visible: self.variant_visible,
            voice_edit_visible: self.voice_edit_visible,
        }
    }
}

/// The panel's invariant: the header spinner turns exactly on the
/// transcribing page, and the decode sweep never runs anywhere else.
pub open spec fn panel_wf(v: MiniPanelView) -> bool {
    &&& v.cells.len() == PANEL_SEGMENTS
    &&& v.sweep_pos < PANEL_SEGMENTS
    &&& v.level <= LED_COUNT
    &&& v.spinning == (v.state == PanelState::Transcribing)
    &&& v.decoding ==> v.state == PanelState::Transcribing
}

/// The result extras put away: actions, selector and voice edit hidden,
/// statistics cleared.
pub open spec fn extras_reset(v: MiniPanelView) -> MiniPanelView {
    MiniPanelView {
        actions_visible: false,
        variant_visible: false,
        voice_edit_visible: false,
        result_stats: Seq::empty(),
        ..v
    }
}

impl MiniPanel {
    pub closed spec fn wf(self) -> bool {
        panel_wf(self@)
    }

    /// A panel on its recording page, with nothing decoded yet.
    pub fn new() -> (p: Self)
        ensures
            p.wf(),
            p@.state == PanelState::Recording,
            p@.header == "Recording"@,
            p@.dot == Some(HeaderDot::Rec),
            p@.timer == "00:00"@,
            p@.centis == ".00"@,
            p@.level == 0,
            !p@.decoding,
            !p@.keep_on_top,
            !p@.llm_indicator,
            !p@.actions_visible,
            !p@.variant_visible,
            !p@.voice_edit_visible,
            p@.chips_sensitive,
            forall|i: int| 0 <= i < PANEL_SEGMENTS ==> !p@.cells[i],
    {
        let mut cells: Vec<bool> = Vec::new();
        let mut i: usize = 0;
        while i < PANEL_SEGMENTS
            invariant
                i <= PANEL_SEGMENTS,
                cells.len() == i,
                forall|j: int| 0 <= j < i ==> !cells@[j],
            decreases PANEL_SEGMENTS - i,
        {
            cells.push(false);
            i = i + 1;
        }
        MiniPanel {
            state: PanelState::Recording,
            keep_on_top: false,
            llm_indicator: false,
            header: owned("Recording"),
            dot: Some(HeaderDot::Rec),
            spinning: false,
            rec_meta: String::new(),
            timer: owned("00:00"),
            centis: owned(".00"),
            level: 0,
            tr_meta_left: String::new(),
            tr_meta_right: String::new(),
            elapsed: owned("0.0 s"),
            partial: String::new(),
            partial_visible: false,
            cells,
            sweep_pos: 0,
            ticks: 0,
            decoding: false,
            transcript: String::new(),
            copied_badge: false,
            result_stats: String::new(),
            chip_presets: Vec::new(),
            chips_sensitive: true,
            actions_visible: false,
            variant_labels: Vec::new(),
            variant_active: 0,
            variant_visible: false,
            voice_edit_visible: false,
        }
    }

    /// The window was asked to close: on the result page that is Close,
    /// otherwise it cancels the dictation in progress.
    pub fn close_request(&self) -> (a: MiniPanelAction)
        ensures
            a == (if self@.state == PanelState::Result {
                MiniPanelAction::Close
            } else {
                MiniPanelAction::Cancel
            }),
    {
        match self.state {
            PanelState::Result => MiniPanelAction::Close,
            _ => MiniPanelAction::Cancel,
        }
    }

    /// The page currently shown.
    pub fn state(&self) -> (s: PanelState)
        ensures
            s == self@.state,
    {
        self.state
    }

    /// The stack page name of the current state.
    pub fn page_name(&self) -> (s: &'static str)
        ensures
            s@ == (match self@.state {
                PanelState::Recording => "recording"@,
                PanelState::Transcribing => "transcribing"@,
                PanelState::Result => "result"@,
            }),
    {
        match self.state {
            PanelState::Recording => "recording",
            PanelState::Transcribing => "transcribing",
            PanelState::Result => "result",
        }
    }

    /// Best-effort keep-on-top request.
    pub fn set_keep_on_top(&mut self, enabled: bool)
        ensures
            final(self)@ == (MiniPanelView { keep_on_top: enabled, ..old(self)@ }),
    {
        self.keep_on_top = enabled;
    }

    /// Show or hide the LLM-connection indicator.
    pub fn set_llm_active(&mut self, active: bool)
        ensures
            final(self)@ == (MiniPanelView { llm_indicator: active, ..old(self)@ }),
    {
        self.llm_indicator = active;
    }

    /// The full text of the result transcript.
    pub fn transcript_text(&self) -> (s: String)
        ensures
            s@ == self@.transcript,
    {
        owned(self.transcript.as_str())
    }

    /// Reveal the "Copied" badge.
    pub fn show_copied_badge(&mut self)
        ensures
            final(self)@ == (MiniPanelView { copied_badge: true, ..old(self)@ }),
    {
        self.copied_badge = true;
    }

    /// Update the result statistics ("128 words · 96 wpm"); no words clears them.
    pub fn set_result_stats(&mut self, words: usize, wpm: Option<u32>)
        ensures
            final(self)@ == (MiniPanelView {
                result_stats: stats_text(words as nat, wpm),
                ..old(self)@
            }),
    {
        if words == 0 {
            self.result_stats = String::new();
            return;
        }
        let mut s = String::new();
        push_decimal(&mut s, words as u64);
        push_str(&mut s, " ");
        if words == 1 {
            push_str(&mut s, "word");
        } else {
            push_str(&mut s, "words");
        }
        match wpm {
            Some(v) => {
                push_str(&mut s, " · ");
                push_decimal(&mut s, v as u64);
                push_str(&mut s, " wpm");
            },
            None => {},
        }
        assert(s@ =~= stats_text(words as nat, wpm));
        self.result_stats = s;
    }

    /// Replace the transform actions with one per preset name.
    pub fn set_chip_presets(&mut self, names: &[String])
        ensures
            final(self)@ == (MiniPanelView { chip_presets: texts(names@), ..old(self)@ }),
    {
        self.chip_presets = copy_strings(names);
    }

    /// Enable or disable the transform actions.
    pub fn set_chips_sensitive(&mut self, on: bool)
        ensures
            final(self)@ == (MiniPanelView { chips_sensitive: on, ..old(self)@ }),
    {
        self.chips_sensitive = on;
    }

    /// Show or hide the transform actions.
    pub fn set_chips_visible(&mut self, on: bool)
        ensures
            final(self)@ == (MiniPanelView { actions_visible: on, ..old(self)@ }),
    {
        self.actions_visible = on;
    }

    /// Rebuild the raw/variant selector, shown only with more than one entry.
    pub fn set_variant_selector(&mut self, labels: &[String], active: usize)
        ensures
            final(self)@ == (MiniPanelView {
                variant_labels: texts(labels@),
                variant_active: active,
                variant_visible: labels@.len() > 1,
                ..old(self)@
            }),
    {
        self.variant_labels = copy_strings(labels);
        self.variant_active = active;
        self.variant_visible = labels.len() > 1;
    }

    /// The user picked entry `index` of the variant selector: it becomes the
    /// selected entry and the panel emits one `Variant(index)` action.
    /// Rebuilding the selector (`set_variant_selector`) emits nothing.
    pub fn variant_selected(&mut self, index: usize) -> (a: MiniPanelAction)
        ensures
            final(self)@ == (MiniPanelView { variant_active: index, ..old(self)@ }),
            a == MiniPanelAction::Variant(index),
    {
        self.variant_active = index;
        MiniPanelAction::Variant(index)
    }

    /// Show or hide the voice-edit button.
    pub fn set_voice_edit_visible(&mut self, on: bool)
        ensures
            final(self)@ == (MiniPanelView { voice_edit_visible: on, ..old(self)@ }),
    {
        self.voice_edit_visible = on;
    }

    fn reset_result_extras(&mut self)
        ensures
            final(self)@ == extras_reset(old(self)@),
    {
        self.actions_visible = false;
        self.variant_visible = false;
        self.voice_edit_visible = false;
        self.result_stats = String::new();
    }

    /// Enter the recording page, showing `lang_label` beside the timer.
    pub fn show_recording(&mut self, lang_label: &str)
        requires
            old(self).wf(),
        ensures
            final(self).wf(),
            final(self)@ == (MiniPanelView {
                state: PanelState::Recording,
                header: "Recording"@,
                dot: Some(HeaderDot::Rec),
                spinning: false,
                decoding: false,
                rec_meta: lang_label@,
                timer: "00:00"@,
                centis: ".00"@,
                level: 0,
                ..extras_reset(old(self)@)
            }),
    {
        self.decoding = false;
        self.reset_result_extras();
        self.state = PanelState::Recording;
        self.header = owned("Recording");
        self.dot = Some(HeaderDot::Rec);
        self.spinning = false;
        self.rec_meta = owned(lang_label);
        self.timer = owned("00:00");
        self.centis = owned(".00");
        self.level = 0;
    }

    /// Enter the transcribing page for a model and language. Returns whether
    /// a sweep timer has to be started (none was running).
    pub fn show_transcribing(&mut self, model_label: &str, lang_label: &str) -> (start_timer: bool)
        requires
            old(self).wf(),
        ensures
            final(self).wf(),
            start_timer == !old(self)@.decoding,
            final(self)@ == (MiniPanelView {
                state: PanelState::Transcribing,
                header: "Transcribing"@,
                dot: None,
                spinning: true,
                tr_meta_left: "Decode · "@ + model_label@,
                tr_meta_right: lang_label@,
                elapsed: "0.0 s"@,
                partial: Seq::empty(),
                partial_visible: false,
                sweep_pos: 0,
                ticks: 0,
                decoding: true,
                ..old(self)@
            }),
    {
        self.state = PanelState::Transcribing;
        self.header = owned("Transcribing");
        self.dot = None;
        self.spinning = true;
        let mut left = owned("Decode · ");
        push_str(&mut left, model_label);
        self.tr_meta_left = left;
        self.tr_meta_right = owned(lang_label);
        self.elapsed = owned("0.0 s");
        self.partial = String::new();
        self.partial_visible = false;
        self.sweep_pos = 0;
        self.ticks = 0;
        self.start_decode_anim()
    }

    /// Enter the "improving with AI" state on the transcribing page. Returns
    /// whether a sweep timer has to be started.
    pub fn show_improving(&mut self) -> (start_timer: bool)
        requires
            old(self).wf(),
        ensures
            final(self).wf(),
            start_timer == !old(self)@.decoding,
            final(self)@ == (MiniPanelView {
                state: PanelState::Transcribing,
                header: "Improving with AI"@,
                dot: None,
                spinning: true,
                tr_meta_left: "Enhancing transcript…"@,
                tr_meta_right: Seq::empty(),
                elapsed: "0.0 s"@,
                sweep_pos: 0,
                ticks: 0,
                decoding: true,
                ..old(self)@
            }),
    {
        self.state = PanelState::Transcribing;
        self.header = owned("Improving with AI");
        self.dot = None;
        self.spinning = true;
        self.tr_meta_left = owned("Enhancing transcript…");
        self.tr_meta_right = String::new();
        self.elapsed = owned("0.0 s");
        self.sweep_pos = 0;
        self.ticks = 0;
        self.start_decode_anim()
    }

    fn start_decode_anim(&mut self) -> (start_timer: bool)
        ensures
            start_timer == !old(self)@.decoding,
            final(self)@ == (MiniPanelView { decoding: true, ..old(self)@ }),
    {
        if self.decoding {
            return false;
        }
        self.decoding = true;
        true
    }

    /// Show the result page with `text`; `copied` reveals the badge.
    pub fn show_result(&mut self, text: &str, copied: bool)
        requires
            old(self).wf(),
        ensures
            final(self).wf(),
            final(self)@ == (MiniPanelView {
                state: PanelState::Result,
                header: "Transcript ready"@,
                dot: Some(HeaderDot::Done),
                spinning: false,
                decoding: false,
                transcript: text@,
                copied_badge: copied,
                ..old(self)@
            }),
    {
        self.decoding = false;
        self.state = PanelState::Result;
        self.header = owned("Transcript ready");
        self.dot = Some(HeaderDot::Done);
        self.spinning = false;
        self.transcript = owned(text);
        self.copied_badge = copied;
    }

    /// Show an error message on the result page.
    pub fn show_error(&mut self, message: &str)
        requires
            old(self).wf(),
        ensures
            final(self).wf(),
            final(self)@ == (MiniPanelView {
                state: PanelState::Result,
                header: "Couldn't transcribe"@,
                dot: Some(HeaderDot::Rec),
                spinning: false,
                decoding: false,
                transcript: message@,
                copied_badge: false,
                ..extras_reset(old(self)@)
            }),
    {
        self.decoding = false;
        self.reset_result_extras();
        self.state = PanelState::Result;
        self.header = owned("Couldn't transcribe");
        self.dot = Some(HeaderDot::Rec);
        self.spinning = false;
        self.transcript = owned(message);
        self.copied_badge = false;
    }

    /// Show a recording time given as whole seconds and hundredths
    /// ("MM:SS" and ".cc", the hundredths capped at 99).
    pub fn set_timer(&mut self, whole_secs: u64, centis: u64)
        ensures
            final(self)@ == (MiniPanelView {
                timer: panel_timer(whole_secs as nat),
                centis: panel_centis(centis as nat),
                ..old(self)@
            }),
    {
        let mut t = String::new();
        push_decimal2(&mut t, whole_secs / 60);
        push_char(&mut t, ':');
        push_decimal2(&mut t, whole_secs % 60);
        let mut c = String::new();
        push_char(&mut c, '.');
        let capped = if centis > 99 {
            99
        } else {
            centis
        };
        push_decimal2(&mut c, capped);
        proof {
            reveal_strlit(":");
            reveal_strlit(".");
        }
        assert(t@ =~= panel_timer(whole_secs as nat));
        assert(c@ =~= panel_centis(centis as nat));
        self.timer = t;
        self.centis = c;
    }

    /// The minutes:seconds text of the recording timer.
    pub fn timer_text(&self) -> (s: &str)
        ensures
            s@ == self@.timer,
    {
        self.timer.as_str()
    }

    /// The hundredths text of the recording timer.
    pub fn centis_text(&self) -> (s: &str)
        ensures
            s@ == self@.centis,
    {
        self.centis.as_str()
    }

    /// The result statistics line.
    pub fn result_stats(&self) -> (s: &str)
        ensures
            s@ == self@.result_stats,
    {
        self.result_stats.as_str()
    }

    /// Light the first `lit` LEDs of the level meter.
    pub fn set_level(&mut self, lit: usize)
        requires
            lit <= LED_COUNT,
        ensures
            old(self).wf() ==> final(self).wf(),
            final(self)@ == (MiniPanelView { level: lit as nat, ..old(self)@ }),
    {
        self.level = lit;
    }

    /// The colour class of LED `i` at the current level.
    pub fn led(&self, i: usize) -> (c: Option<&'static str>)
        ensures
            match c {
                Some(s) => led_color(i as int, self@.level as int) == Some(s@),
                None => led_color(i as int, self@.level as int) is None,
            },
    {
        led_class(i, self.level)
    }

    /// One 90 ms step of the decode sweep: light the window, advance it, and
    /// every fourth tick refresh the elapsed time. Returns whether the timer
    /// keeps running (only while decoding on the transcribing page).
    pub fn sweep_tick(&mut self) -> (keep_running: bool)
        requires
            old(self).wf(),
        ensures
            final(self).wf(),
            keep_running == (old(self)@.decoding && old(self)@.state == PanelState::Transcribing),
            !keep_running ==> final(self)@ == old(self)@,
            keep_running ==> {
                let t = old(self)@.ticks.wrapping_add(1);
                final(self)@ == (MiniPanelView {
                    cells: Seq::new(
                        PANEL_SEGMENTS as nat,
                        |i: int| sweep_lit(i, PANEL_SEGMENTS as int, old(self)@.sweep_pos as int),
                    ),
                    sweep_pos: ((old(self)@.sweep_pos + 1) % (PANEL_SEGMENTS as nat)) as nat,
                    ticks: t,
                    elapsed: if t % 4 == 0 {
                        elapsed_text(elapsed_tenths(t as nat))
                    } else {
                        old(self)@.elapsed
                    },
                    ..old(self)@
                })
            },
    {
        if !self.decoding || self.state != PanelState::Transcribing {
            return false;
        }
        let n = PANEL_SEGMENTS;
        let pos = self.sweep_pos;
        let mut cells: Vec<bool> = Vec::new();
        let mut i: usize = 0;
        while i < n
            invariant
                n == PANEL_SEGMENTS,
                pos < n,
                cells.len() == i,
                i <= n,
                forall|j: int| 0 <= j < i ==> cells@[j] == sweep_lit(j, n as int, pos as int),
            decreases n - i,
        {
            let lit = (i + n - (pos % n)) % n < 6;
            cells.push(lit);
            i = i + 1;
        }
        self.cells = cells;
        self.sweep_pos = (pos + 1) % n;
        assert(self.cells@ =~= Seq::new(
            PANEL_SEGMENTS as nat,
            |i: int| sweep_lit(i, PANEL_SEGMENTS as int, pos as int),
        ));
        let t = self.ticks.wrapping_add(1);
        self.ticks = t;
        if t % 4 == 0 {
            self.elapsed = elapsed_string(t);
        }
        true
    }

    /// Show live partial text on the transcribing page (hidden when empty).
    pub fn set_partial_text(&mut self, text: &str)
        ensures
            final(self)@ == (MiniPanelView {
                partial: text@,
                partial_visible: text@.len() > 0,
                ..old(self)@
            }),
    {
        self.partial_visible = text.unicode_len() != 0;
        self.partial = owned(text);
    }

    /// Stop the sweep and light the cells in proportion to a percentage.
    pub fn set_decode_progress(&mut self, pct: i32)
        requires
            old(self).wf(),
        ensures
            final(self).wf(),
            final(self)@ == (MiniPanelView {
                decoding: false,
                cells: Seq::new(
                    PANEL_SEGMENTS as nat,
                    |i: int| i < progress_lit(pct as int, PANEL_SEGMENTS as int),
                ),
                ..old(self)@
            }),
    {
        self.decoding = false;
        let n = PANEL_SEGMENTS;
        let lit = progress_cells(pct, n);
        let mut cells: Vec<bool> = Vec::new();
        let mut i: usize = 0;
        while i < n
            invariant
                n == PANEL_SEGMENTS,
                cells.len() == i,
                i <= n,
                lit == progress_lit(pct as int, n as int),
                forall|j: int| 0 <= j < i ==> cells@[j] == (j < lit),
            decreases n - i,
        {
            cells.push(i < lit);
            i = i + 1;
        }
        self.cells = cells;
        assert(self.cells@ =~= Seq::new(
            PANEL_SEGMENTS as nat,
            |i: int| i < progress_lit(pct as int, PANEL_SEGMENTS as int),
        ));
    }
}

/// The elapsed-time text after `ticks` ticks of 90 ms.
pub fn elapsed_string(ticks: u32) -> (s: String)
    ensures
        s@ == elapsed_text(elapsed_tenths(ticks as nat)),
{
    let tenths: u64 = (ticks as u64 * 9 + 5) / 10;
    let mut s = String::new();
    push_decimal(&mut s, tenths / 10);
    push_char(&mut s, '.');
    push_decimal(&mut s, tenths % 10);
    push_str(&mut s, " s");
    proof {
        reveal_strlit(".");
    }
    assert(s@ =~= elapsed_text(elapsed_tenths(ticks as nat)));
    s
}

/// The elapsed time shown while decoding is the tick count times 90 ms,
/// rounded to a tenth of a second: never behind by more than half a tenth.
pub proof fn law_elapsed_tracks_ticks(ticks: nat)
    ensures
        elapsed_tenths(ticks) * 100 <= ticks * 90 + 50,
        ticks * 90 < elapsed_tenths(ticks) * 100 + 50,
{
}

/// Only the top LED shows red, the two below it yellow, the rest green, and
/// exactly the first `lit` LEDs are on.
pub proof fn law_led_colors(i: int, lit: int)
    requires
        0 <= i < LED_COUNT,
        0 <= lit <= LED_COUNT,
    ensures
        led_color(i, lit) is Some <==> i < lit,
        i < lit && i == 6 ==> led_color(i, lit) == Some("r"@),
        i < lit && (i == 4 || i == 5) ==> led_color(i, lit) == Some("y"@),
        i < lit && i < 4 ==> led_color(i, lit) == Some("g"@),
{
}

} // verus!
