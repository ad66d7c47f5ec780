//! The record controls: which action each button dispatches, the hero's
//! idle/live presentation, the pause/resume button, the Translate and
//! Enhance toggles and the dictation-mode chips.

use vstd::prelude::*;
use crate::dictation::{mode_id, mode_index_of, dictation_mode_for, dictation_mode_index};

verus! {

/// Signals emitted by the controls panel.
#[derive(Debug, Clone, Copy, PartialEq, Eq, Structural)]
pub enum ControlAction {
    Record,
    Pause,
    Resume,
    Stop,
    Cancel,
    Copy,
    Clear,
    Save,
    OpenFile,
}

/// What the hero button dispatches: Stop while live, Record otherwise.
pub open spec fn hero_action_for(recording: bool) -> ControlAction {
    if recording {
        ControlAction::Stop
    } else {
        ControlAction::Record
    }
}

/// What the pause button dispatches: Resume while paused, Pause otherwise.
pub open spec fn pause_action_for(paused: bool) -> ControlAction {
    if paused {
        ControlAction::Resume
    } else {
        ControlAction::Pause
    }
}

/// Everything the hero zone shows for one recording state.
pub struct HeroPresentation {
    pub state_class: &'static str,
    pub state_label: &'static str,
    pub title: &'static str,
    pub subtitle: &'static str,
    pub hint: &'static str,
    pub icon: &'static str,
    pub button_class: &'static str,
    pub tooltip: &'static str,
    /// Pause and Cancel are usable (and the tool row is shown and clickable).
    pub tools_active: bool,
    pub open_file_sensitive: bool,
}

/// The hero zone's texts while recording (`true`) or idle (`false`).
pub open spec fn hero_spec(recording: bool, h: HeroPresentation) -> bool {
    if recording {
        &&& h.state_class@ == "recording"@
        &&& h.state_label@ == "Recording"@
        &&& h.title@ == "Listening now"@
        &&& h.subtitle@
            == "Your words appear below as you speak. Use the button again when you are done."@
        &&& h.hint@ == "Recording in progress · Esc to stop"@
        &&& h.icon@ == "media-playback-stop-symbolic"@
        &&& h.button_class@ == "hero-recording"@
        &&& h.tooltip@ == "Stop recording and transcribe"@
        &&& h.tools_active
        &&& !h.open_file_sensitive
    } else {
        &&& h.state_class@ == "ready"@
        &&& h.state_label@ == "Ready"@
        &&& h.title@ == "Start a new recording"@
        &&& h.subtitle@
            == "Capture a thought, draft a message, or transcribe an audio file with local speech recognition."@
        &&& h.hint@ == "Ctrl+R to start · Esc to cancel"@
        &&& h.icon@ == "audio-input-microphone-symbolic"@
        &&& h.button_class@ == "suggested-action"@
        &&& h.tooltip@ == "Start recording (Ctrl+R)"@
        &&& !h.tools_active
        &&& h.open_file_sensitive
    }
}

/// The hero zone for a recording state.
pub fn hero_presentation(recording: bool) -> (h: HeroPresentation)
    ensures
        hero_spec(recording, h),
{
    if recording {
        HeroPresentation {
            state_class: "recording",
            state_label: "Recording",
            title: "Listening now",
            subtitle: "Your words appear below as you speak. Use the button again when you are done.",
            hint: "Recording in progress · Esc to stop",
            icon: "media-playback-stop-symbolic",
            button_class: "hero-recording",
            tooltip: "Stop recording and transcribe",
            tools_active: true,
            open_file_sensitive: false,
        }
    } else {
        HeroPresentation {
            state_class: "ready",
            state_label: "Ready",
            title: "Start a new recording",
            subtitle: "Capture a thought, draft a message, or transcribe an audio file with local speech recognition.",
            hint: "Ctrl+R to start · Esc to cancel",
            icon: "audio-input-microphone-symbolic",
            button_class: "suggested-action",
            tooltip: "Start recording (Ctrl+R)",
            tools_active: false,
            open_file_sensitive: true,
        }
    }
}

/// The pause button's icon, label and tooltip.
pub struct PausePresentation {
    pub icon: &'static str,
    pub label: &'static str,
    pub tooltip: &'static str,
}

pub open spec fn pause_spec(paused: bool, p: PausePresentation) -> bool {
    if paused {
        &&& p.icon@ == "media-playback-start-symbolic"@
        &&& p.label@ == "Resume"@
        &&& p.tooltip@ == "Resume recording"@
    } else {
        &&& p.icon@ == "media-playback-pause-symbolic"@
        &&& p.label@ == "Pause"@
        &&& p.tooltip@ == "Pause recording"@
    }
}

/// The pause button for a paused state.
pub fn pause_presentation(paused: bool) -> (p: PausePresentation)
    ensures
        pause_spec(paused, p),
{
    if paused {
        PausePresentation {
            icon: "media-playback-start-symbolic",
            label: "Resume",
            tooltip: "Resume recording",
        }
    } else {
        PausePresentation {
            icon: "media-playback-pause-symbolic",
            label: "Pause",
            tooltip: "Pause recording",
        }
    }
}

/// Number of dictation modes offered as chips.
pub const MODE_COUNT: u32 = 5;

/// The state of the controls panel.
pub struct Controls {
    recording: bool,
    paused: bool,
    translate_active: bool,
    translate_sensitive: bool,
    ai_active: bool,
    ai_visible: bool,
    mode: u32,
}

/// The abstract state of the controls panel.
pub struct ControlsView {
    pub recording: bool,
    pub paused: bool,
    pub translate_active: bool,
    pub translate_sensitive: bool,
    pub ai_active: bool,
    pub ai_visible: bool,
    /// The active dictation-mode chip.
    pub mode: nat,
}

impl View for Controls {
    type V = ControlsView;

    closed spec fn view(&self) -> ControlsView {
        ControlsView {
            recording: self.recording,
            paused: self.paused,
            translate_active: self.translate_active,
            translate_sensitive: self.translate_sensitive,
            ai_active: self.ai_active,
            ai_visible: self.ai_visible,
            mode: self.mode as nat,
        }
    }
}

impl Controls {
    pub closed spec fn wf(self) -> bool {
        self.mode < 5
    }

    /// Idle controls with the chip of the saved dictation mode active; the
    /// Enhance toggle starts hidden and off, Translate usable and off.
    pub fn new(active_mode: &str) -> (c: Self)
        ensures
            c.wf(),
            !c@.recording,
            !c@.paused,
            !c@.translate_active,
            c@.translate_sensitive,
            !c@.ai_active,
            !c@.ai_visible,
            mode_index_of(active_mode@, c@.mode as int),
    {
        Controls {
            recording: false,
            paused: false,
            translate_active: false,
            translate_sensitive: true,
            ai_active: false,
            ai_visible: false,
            mode: dictation_mode_index(active_mode),
        }
    }

    /// Whether "Improve with AI" is armed.
    pub fn is_ai_active(&self) -> (b: bool)
        ensures
            b == self@.ai_active,
    {
        self.ai_active
    }

    /// Set the "Improve with AI" toggle state.
    pub fn set_ai_active(&mut self, active: bool)
        ensures
            final(self)@ == (ControlsView { ai_active: active, ..old(self)@ }),
            final(self).wf() == old(self).wf(),
    {
        self.ai_active = active;
    }

    /// Show or hide the "Improve with AI" toggle.
    pub fn set_ai_visible(&mut self, visible: bool)
        ensures
            final(self)@ == (ControlsView { ai_visible: visible, ..old(self)@ }),
            final(self).wf() == old(self).wf(),
    {
        self.ai_visible = visible;
    }

    /// Whether the "Improve with AI" toggle is shown.
    pub fn is_ai_visible(&self) -> (b: bool)
        ensures
            b == self@.ai_visible,
    {
        self.ai_visible
    }

    /// What a click on the hero button dispatches.
    pub fn hero_action(&self) -> (a: ControlAction)
        ensures
            a == hero_action_for(self@.recording),
    {
        if self.recording {
            ControlAction::Stop
        } else {
            ControlAction::Record
        }
    }

    /// What a click on the pause button dispatches.
    pub fn pause_action(&self) -> (a: ControlAction)
        ensures
            a == pause_action_for(self@.paused),
    {
        if self.paused {
            ControlAction::Resume
        } else {
            ControlAction::Pause
        }
    }

    /// Set the recording state and return how the hero zone now looks.
    pub fn set_recording_state(&mut self, recording: bool) -> (h: HeroPresentation)
        ensures
            final(self)@ == (ControlsView { recording: recording, ..old(self)@ }),
            final(self).wf() == old(self).wf(),
            hero_spec(recording, h),
    {
        self.recording = recording;
        hero_presentation(recording)
    }

    /// Set the paused state and return how the pause button now looks.
    pub fn set_paused_state(&mut self, paused: bool) -> (p: PausePresentation)
        ensures
            final(self)@ == (ControlsView { paused: paused, ..old(self)@ }),
            final(self).wf() == old(self).wf(),
            pause_spec(paused, p),
    {
        self.paused = paused;
        pause_presentation(paused)
    }

    /// Back to idle and not paused; toggles and mode are kept.
    pub fn reset(&mut self) -> (r: (HeroPresentation, PausePresentation))
        ensures
            final(self)@ == (ControlsView { recording: false, paused: false, ..old(self)@ }),
            final(self).wf() == old(self).wf(),
            hero_spec(false, r.0),
            pause_spec(false, r.1),
    {
        let h = self.set_recording_state(false);
        let p = self.set_paused_state(false);
        (h, p)
    }

    /// Get whether the translate toggle is active.
    pub fn is_translate_active(&self) -> (b: bool)
        ensures
            b == self@.translate_active,
    {
        self.translate_active
    }

    /// Set the translate toggle state.
    pub fn set_translate_active(&mut self, active: bool)
        ensures
            final(self)@ == (ControlsView { translate_active: active, ..old(self)@ }),
            final(self).wf() == old(self).wf(),
    {
        self.translate_active = active;
    }

    /// Enable or disable the translate toggle; disabling also turns it off.
    pub fn set_translate_enabled(&mut self, enabled: bool)
        ensures
            final(self)@ == (ControlsView {
                translate_sensitive: enabled,
                translate_active: old(self)@.translate_active && enabled,
                ..old(self)@
            }),
            final(self).wf() == old(self).wf(),
    {
        self.translate_sensitive = enabled;
        if !enabled {
            self.translate_active = false;
        }
    }

    /// Whether the translate toggle can be used.
    pub fn is_translate_sensitive(&self) -> (b: bool)
        ensures
            b == self@.translate_sensitive,
    {
        self.translate_sensitive
    }

    /// The active dictation-mode chip.
    pub fn mode_index(&self) -> (i: u32)
        ensures
            i == self@.mode,
    {
        self.mode
    }

    /// Activate a mode chip; returns the mode id to save.
    pub fn select_mode(&mut self, index: u32) -> (id: &'static str)
        requires
            index < MODE_COUNT,
        ensures
            final(self)@ == (ControlsView { mode: index as nat, ..old(self)@ }),
            final(self).wf(),
            id@ == mode_id(index as int),
    {
        self.mode = index;
        dictation_mode_for(index)
    }
}

/// One press of the hero starts a recording, the next one stops it: after the
/// window reacts to Record by entering the recording state, the hero
/// dispatches Stop, and after Stop is handled it dispatches Record again.
pub proof fn law_hero_alternates(recording: bool)
    ensures
        hero_action_for(recording) == ControlAction::Record <==> !recording,
        hero_action_for(!recording) != hero_action_for(recording),
        hero_action_for(false) == ControlAction::Record,
        hero_action_for(true) == ControlAction::Stop,
{
}

/// The pause button alternates between Pause and Resume as the paused state
/// flips, and after a reset it offers Pause.
pub proof fn law_pause_alternates(paused: bool)
    ensures
        pause_action_for(!paused) != pause_action_for(paused),
        pause_action_for(false) == ControlAction::Pause,
{
}

} // verus!
