//! The status bar: recording status with its coloured indicator, language,
//! compute mode, the update notice and the version label.

use vstd::prelude::*;
use crate::text::{has_prefix, owned, push_str, starts_with, same};

verus! {

/// The style classes carried by the recording indicator.
#[derive(Debug, Clone, Copy, PartialEq, Eq, Structural)]
pub struct StatusIcon {
    pub pulse: bool,
    pub dim: bool,
    pub error: bool,
    pub success: bool,
    pub warning: bool,
    pub accent: bool,
}

/// The indicator after a status text is shown. Every class but the accent is
/// cleared first; the accent, once added for "Transcribing…", stays.
pub open spec fn icon_after(prev: StatusIcon, status: Seq<char>) -> StatusIcon {
    let cleared = StatusIcon {
        pulse: false,
        dim: false,
        error: false,
        success: false,
        warning: false,
        accent: prev.accent,
    };
    if has_prefix(status, "Recording"@) {
        StatusIcon { success: true, pulse: true, ..cleared }
    } else if has_prefix(status, "Transcribing"@) {
        StatusIcon { accent: true, pulse: true, ..cleared }
    } else if status == "Paused"@ {
        StatusIcon { warning: true, ..cleared }
    } else {
        StatusIcon { dim: true, ..cleared }
    }
}

/// The text of the update notice for a version.
pub open spec fn update_text(version: Seq<char>) -> Seq<char> {
    "v"@ + version + " available"@
}

pub struct StatusBar {
    recording_label: String,
    icon: StatusIcon,
    language: String,
    compute: String,
    update_visible: bool,
    update_label: String,
    version_label: String,
}

pub struct StatusBarView {
    pub recording_label: Seq<char>,
    pub icon: StatusIcon,
    pub language: Seq<char>,
    pub compute: Seq<char>,
    pub update_visible: bool,
    pub update_label: Seq<char>,
    pub version_label: Seq<char>,
}

impl View for StatusBar {
    type V = StatusBarView;

    closed spec fn view(&self) -> StatusBarView {
        StatusBarView {
            recording_label: self.recording_label@,
            icon: self.icon,
            language: self.language@,
            compute: self.compute@,
            update_visible: self.update_visible,
            update_label: self.update_label@,
            version_label: self.version_label@,
        }
    }
}

impl StatusBar {
    /// "Idle", "Auto-detect", "CPU", the update notice hidden, and the
    /// application version.
    pub fn new(app_version: &str) -> (b: Self)
        ensures
            b@.recording_label == "Idle"@,
            b@.icon == (StatusIcon {
                pulse: false,
                dim: true,
                error: false,
                success: false,
                warning: false,
                accent: false,
            }),
            b@.language == "Auto-detect"@,
            b@.compute == "CPU"@,
            !b@.update_visible,
            b@.update_label == "Update available"@,
            b@.version_label == "Version "@ + app_version@,
    {
        let mut version_label = owned("Version ");
        push_str(&mut version_label, app_version);
        StatusBar {
            recording_label: owned("Idle"),
            icon: StatusIcon {
                pulse: false,
                dim: true,
                error: false,
                success: false,
                warning: false,
                accent: false,
            },
            language: owned("Auto-detect"),
            compute: owned("CPU"),
            update_visible: false,
            update_label: owned("Update available"),
            version_label,
        }
    }

    /// Show a recording status and colour the indicator by its wording.
    pub fn set_recording_status(&mut self, status: &str)
        ensures
            final(self)@ == (StatusBarView {
                recording_label: status@,
                icon: icon_after(old(self)@.icon, status@),
                ..old(self)@
            }),
    {
        self.recording_label = owned(status);
        let accent = self.icon.accent;
        let cleared = StatusIcon {
            pulse: false,
            dim: false,
            error: false,
            success: false,
            warning: false,
            accent,
        };
        self.icon = if starts_with(status, "Recording") {
            StatusIcon { success: true, pulse: true, ..cleared }
        } else if starts_with(status, "Transcribing") {
            StatusIcon { accent: true, pulse: true, ..cleared }
        } else if same(status, "Paused") {
            StatusIcon { warning: true, ..cleared }
        } else {
            StatusIcon { dim: true, ..cleared }
        };
    }

    /// The bar has no model label: the name is not displayed anywhere.
    pub fn set_model_name(&mut self, name: &str)
        ensures
            final(self)@ == old(self)@,
    {
    }

    pub fn set_language(&mut self, language: &str)
        ensures
            final(self)@ == (StatusBarView { language: language@, ..old(self)@ }),
    {
        self.language = owned(language);
    }

    pub fn set_compute_mode(&mut self, mode: &str)
        ensures
            final(self)@ == (StatusBarView { compute: mode@, ..old(self)@ }),
    {
        self.compute = owned(mode);
    }

    /// Reveal the update notice, reading "v{version} available".
    pub fn show_update_available(&mut self, version: &str)
        ensures
            final(self)@ == (StatusBarView {
                update_visible: true,
                update_label: update_text(version@),
                ..old(self)@
            }),
    {
        let mut label = owned("v");
        push_str(&mut label, version);
        push_str(&mut label, " available");
        self.update_visible = true;
        self.update_label = label;
    }

    pub fn recording_label(&self) -> (s: &str)
        ensures
            s@ == self@.recording_label,
    {
        self.recording_label.as_str()
    }

    pub fn icon(&self) -> (i: StatusIcon)
        ensures
            i == self@.icon,
    {
        self.icon
    }

    pub fn update_label(&self) -> (s: &str)
        ensures
            s@ == self@.update_label,
    {
        self.update_label.as_str()
    }

    pub fn is_update_visible(&self) -> (b: bool)
        ensures
            b == self@.update_visible,
    {
        self.update_visible
    }
}

/// Whatever came before, a status that starts with "Recording" pulses in the
/// success colour and never shows the warning or dimmed look, and any status
/// other than the recording, transcribing and paused ones leaves the
/// indicator dimmed and still.
pub proof fn law_indicator_follows_status(prev: StatusIcon, status: Seq<char>)
    ensures
        has_prefix(status, "Recording"@) ==> {
            let i = icon_after(prev, status);
            i.success && i.pulse && !i.warning && !i.dim && !i.error
        },
        !has_prefix(status, "Recording"@) && !has_prefix(status, "Transcribing"@) && status
            != "Paused"@ ==> {
            let i = icon_after(prev, status);
            i.dim && !i.pulse && !i.success && !i.warning && !i.error
        },
{
}

} // verus!
