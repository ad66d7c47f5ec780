//! The dictation settings: the dictation modes, the autostart entry that
//! launches the application hidden, the auto-paste consent, the global
//! shortcut and the paste method description.

use vstd::prelude::*;
use crate::text::{same, owned, push_str, is_blank, has_non_ws};

verus! {

/// Dictation mode id at a combo position.
pub open spec fn mode_id(i: int) -> Seq<char> {
    if i == 0 {
        "plain"@
    } else if i == 1 {
        "message"@
    } else if i == 2 {
        "email"@
    } else if i == 3 {
        "note"@
    } else {
        "code_prompt"@
    }
}

/// The dictation mode saved for a combo selection (past the end: the last mode).
pub fn dictation_mode_for(selected: u32) -> (s: &'static str)
    ensures
        s@ == mode_id(if selected < 5 { selected as int } else { 4 }),
{
    match selected {
        0 => "plain",
        1 => "message",
        2 => "email",
        3 => "note",
        _ => "code_prompt",
    }
}

/// The combo position shown for a saved mode: the first position with that
/// id, or the first position when the id is unknown.
pub open spec fn mode_index_of(mode: Seq<char>, i: int) -> bool {
    &&& 0 <= i < 5
    &&& i > 0 ==> mode_id(i) == mode && forall|j: int| 0 <= j < i ==> mode_id(j) != mode
    &&& i == 0 ==> mode_id(0) == mode || forall|j: int| 0 <= j < 5 ==> mode_id(j) != mode
}

/// The combo position of a saved dictation mode (unknown modes show "Plain").
pub fn dictation_mode_index(mode: &str) -> (i: u32)
    ensures
        mode_index_of(mode@, i as int),
{
    let mut i: u32 = 0;
    while i < 5
        invariant
            i <= 5,
            forall|j: int| 0 <= j < i ==> mode_id(j) != mode@,
        decreases 5 - i,
    {
        if same(mode, dictation_mode_for(i)) {
            return i;
        }
        i = i + 1;
    }
    0
}


/// Where the autostart entry lives under the autostart directory.
pub fn autostart_file_name(app_id: &str) -> (s: String)
    ensures
        s@ == app_id@ + ".desktop"@,
{
    let mut s = owned(app_id);
    push_str(&mut s, ".desktop");
    s
}

/// The desktop entry that starts the application hidden in the tray at login.
pub open spec fn autostart_entry_text(app_name: Seq<char>, exec: Seq<char>, app_id: Seq<char>) -> Seq<char> {
    "[Desktop Entry]\nType=Application\nName="@ + app_name + "\nExec="@ + exec
        + " --hidden\nIcon="@ + app_id + "\nX-GNOME-Autostart-enabled=true\n"@
}

/// The autostart desktop entry for an application name, executable path and id.
pub fn autostart_entry(app_name: &str, exec: &str, app_id: &str) -> (s: String)
    ensures
        s@ == autostart_entry_text(app_name@, exec@, app_id@),
{
    let mut s = owned("[Desktop Entry]\nType=Application\nName=");
    push_str(&mut s, app_name);
    push_str(&mut s, "\nExec=");
    push_str(&mut s, exec);
    push_str(&mut s, " --hidden\nIcon=");
    push_str(&mut s, app_id);
    push_str(&mut s, "\nX-GNOME-Autostart-enabled=true\n");
    s
}

/// What toggling auto-paste leads to.
#[derive(Debug, Clone, Copy, PartialEq, Eq, Structural)]
pub enum AutoPasteStep {
    /// Turning it on first asks for consent.
    AskConsent,
    /// Turning it off is saved at once.
    SaveOff,
}

/// Auto-paste was switched on or off.
pub fn auto_paste_toggled(active: bool) -> (s: AutoPasteStep)
    ensures
        s == (if active { AutoPasteStep::AskConsent } else { AutoPasteStep::SaveOff }),
{
    if active {
        AutoPasteStep::AskConsent
    } else {
        AutoPasteStep::SaveOff
    }
}

/// The consent dialog closed: only "enable" turns auto-paste on; any other
/// answer turns the switch back off.
pub fn auto_paste_answer(response: &str) -> (enable: bool)
    ensures
        enable == (response@ == "enable"@),
{
    same(response, "enable")
}

/// The global shortcut to save for the entry text (blank text is not saved).
pub fn shortcut_to_save(text: &str) -> (r: Option<String>)
    ensures
        match r {
            Some(s) => has_non_ws(text@) && s@ == text@,
            None => !has_non_ws(text@),
        },
{
    if is_blank(text) {
        None
    } else {
        Some(owned(text))
    }
}

/// How dictated text reaches other applications.
#[derive(Debug, Clone, Copy, PartialEq, Eq, Structural)]
pub enum PasteHelper {
    RemoteDesktopPortal,
    Ydotool,
    ClipboardOnly,
}

/// The user-facing description of a paste method.
pub fn paste_helper_description(h: PasteHelper) -> (s: &'static str)
    ensures
        s@ == (match h {
            PasteHelper::RemoteDesktopPortal => "Desktop portal (asks for permission once)"@,
            PasteHelper::Ydotool => "ydotool"@,
            PasteHelper::ClipboardOnly => "Clipboard only — press Ctrl+V to paste"@,
        }),
{
    match h {
        PasteHelper::RemoteDesktopPortal => "Desktop portal (asks for permission once)",
        PasteHelper::Ydotool => "ydotool",
        PasteHelper::ClipboardOnly => "Clipboard only — press Ctrl+V to paste",
    }
}

/// The dictation settings page.
pub struct DictationPage {
    pub mini_panel_enabled: bool,
    pub keep_on_top: bool,
    pub start_hidden: bool,
    pub shortcut: String,
    pub auto_paste: bool,
    pub mode: u32,
    pub update_check: bool,
    pub live_transcription: bool,
}

/// The dictation settings as values.
pub struct DictationView {
    pub mini_panel_enabled: bool,
    pub keep_on_top: bool,
    pub start_hidden: bool,
    pub shortcut: Seq<char>,
    pub auto_paste: bool,
    pub mode: u32,
    pub update_check: bool,
    pub live_transcription: bool,
}

impl View for DictationPage {
    type V = DictationView;

    open spec fn view(&self) -> DictationView {
        DictationView {
            mini_panel_enabled: self.mini_panel_enabled,
            keep_on_top: self.keep_on_top,
            start_hidden: self.start_hidden,
            shortcut: self.shortcut@,
            auto_paste: self.auto_paste,
            mode: self.mode,
            update_check: self.update_check,
            live_transcription: self.live_transcription,
        }
    }
}

impl DictationPage {
    /// The page for the saved settings; the mode combo shows the saved mode.
    pub fn new(
        mini_panel_enabled: bool,
        keep_on_top: bool,
        start_hidden: bool,
        shortcut: &str,
        auto_paste: bool,
        mode: &str,
        update_check: bool,
        live_transcription: bool,
    ) -> (p: Self)
        ensures
            p.mini_panel_enabled == mini_panel_enabled,
            p.keep_on_top == keep_on_top,
            p.start_hidden == start_hidden,
            p.shortcut@ == shortcut@,
            p.auto_paste == auto_paste,
            mode_index_of(mode@, p.mode as int),
            p.update_check == update_check,
            p.live_transcription == live_transcription,
    {
        DictationPage {
            mini_panel_enabled,
            keep_on_top,
            start_hidden,
            shortcut: owned(shortcut),
            auto_paste,
            mode: dictation_mode_index(mode),
            update_check,
            live_transcription,
        }
    }

    /// "Start hidden" changed: saved, and the autostart entry is written
    /// (on) or removed (off), as the returned flag says.
    pub fn set_start_hidden(&mut self, active: bool) -> (write_autostart: bool)
        ensures
            final(self).start_hidden == active,
            write_autostart == active,
            final(self)@ == (DictationView { start_hidden: active, ..old(self)@ }),
    {
        self.start_hidden = active;
        active
    }

    /// The shortcut entry changed; blank text is not saved. Returns whether it was.
    pub fn shortcut_changed(&mut self, text: &str) -> (saved: bool)
        ensures
            saved == has_non_ws(text@),
            saved ==> final(self).shortcut@ == text@,
            !saved ==> final(self).shortcut@ == old(self).shortcut@,
            final(self)@ == (DictationView { shortcut: final(self).shortcut@, ..old(self)@ }),
    {
        match shortcut_to_save(text) {
            Some(s) => {
                self.shortcut = s;
                true
            },
            None => false,
        }
    }

    /// The auto-paste switch changed: turning it on asks for consent first
    /// (nothing saved yet); turning it off is saved.
    pub fn auto_paste_switched(&mut self, active: bool) -> (s: AutoPasteStep)
        ensures
            s == auto_paste_step_of(active),
            !active ==> !final(self).auto_paste,
            active ==> final(self).auto_paste == old(self).auto_paste,
            final(self)@ == (DictationView { auto_paste: final(self).auto_paste, ..old(self)@ }),
    {
        let step = auto_paste_toggled(active);
        if !active {
            self.auto_paste = false;
        }
        step
    }

    /// The consent dialog closed: "enable" turns auto-paste on; any other
    /// answer leaves it off (the switch goes back).
    pub fn auto_paste_answered(&mut self, response: &str) -> (enabled: bool)
        ensures
            enabled == (response@ == "enable"@),
            enabled ==> final(self).auto_paste,
            !enabled ==> final(self).auto_paste == old(self).auto_paste,
            final(self)@ == (DictationView { auto_paste: final(self).auto_paste, ..old(self)@ }),
    {
        let e = auto_paste_answer(response);
        if e {
            self.auto_paste = true;
        }
        e
    }

    /// A mode was chosen in the combo (past the end: the last mode).
    /// Returns the mode id to save.
    pub fn mode_selected(&mut self, selected: u32) -> (id: &'static str)
        ensures
            final(self).mode == (if selected < 5 { selected } else { 4 }),
            id@ == mode_id(if selected < 5 { selected as int } else { 4 }),
            final(self)@ == (DictationView { mode: final(self).mode, ..old(self)@ }),
    {
        self.mode = if selected < 5 {
            selected
        } else {
            4
        };
        dictation_mode_for(selected)
    }
}

/// The step after switching auto-paste on or off.
pub open spec fn auto_paste_step_of(active: bool) -> AutoPasteStep {
    if active {
        AutoPasteStep::AskConsent
    } else {
        AutoPasteStep::SaveOff
    }
}

/// Choosing a mode and restoring the page from the saved id selects the
/// same mode again.
pub proof fn law_mode_round_trip(i: int, r: int)
    requires
        0 <= i < 5,
        mode_index_of(mode_id(i), r),
    ensures
        r == i,
{
    reveal_strlit("plain");
    reveal_strlit("message");
    reveal_strlit("email");
    reveal_strlit("note");
    reveal_strlit("code_prompt");
    assert("plain"@[0] != "message"@[0]);
    assert("plain"@[0] != "email"@[0]);
    assert("plain"@[0] != "note"@[0]);
    assert("plain"@[0] != "code_prompt"@[0]);
    assert("message"@[0] != "email"@[0]);
    assert("message"@[0] != "note"@[0]);
    assert("message"@[0] != "code_prompt"@[0]);
    assert("email"@[0] != "note"@[0]);
    assert("email"@[0] != "code_prompt"@[0]);
    assert("note"@[0] != "code_prompt"@[0]);
    assert(forall|a: int, b: int| 0 <= a < b < 5 ==> mode_id(a) != mode_id(b));
}

} // verus!
