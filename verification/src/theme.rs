//! The colour theme: the saved name ("system", "light", "dark"), the scheme
//! it applies, and which of the three theme buttons carries the check mark.

use vstd::prelude::*;
use crate::text::{same, owned};

verus! {

/// The colour schemes the popover offers.
#[derive(Debug, Clone, Copy, PartialEq, Eq, Structural)]
pub enum Theme {
    /// Follow the system.
    System,
    Light,
    Dark,
}

/// The scheme a saved theme name applies ("light", "dark", anything else
/// follows the system).
pub open spec fn theme_for(name: Seq<char>) -> Theme {
    if name == "light"@ {
        Theme::Light
    } else if name == "dark"@ {
        Theme::Dark
    } else {
        Theme::System
    }
}

/// The name saved for a scheme.
pub open spec fn theme_name_of(t: Theme) -> Seq<char> {
    match t {
        Theme::System => "system"@,
        Theme::Light => "light"@,
        Theme::Dark => "dark"@,
    }
}

/// The name to save when a scheme is chosen.
pub fn theme_name(t: Theme) -> (s: &'static str)
    ensures
        s@ == theme_name_of(t),
{
    match t {
        Theme::System => "system",
        Theme::Light => "light",
        Theme::Dark => "dark",
    }
}

/// The style class of a theme button.
pub fn theme_button_class(t: Theme) -> (s: &'static str)
    ensures
        s@ == (match t {
            Theme::System => "theme-default"@,
            Theme::Light => "theme-light"@,
            Theme::Dark => "theme-dark"@,
        }),
{
    match t {
        Theme::System => "theme-default",
        Theme::Light => "theme-light",
        Theme::Dark => "theme-dark",
    }
}

/// The popover's state: the theme name last saved or loaded, and the
/// button that is checked.
pub struct ThemePopover {
    theme: String,
    active: Theme,
}

impl ThemePopover {
    /// The scheme to apply for a saved theme name.
    pub fn apply_theme(name: &str) -> (t: Theme)
        ensures
            t == theme_for(name@),
    {
        if same(name, "light") {
            Theme::Light
        } else if same(name, "dark") {
            Theme::Dark
        } else {
            Theme::System
        }
    }

    pub closed spec fn saved(self) -> Seq<char> {
        self.theme@
    }

    pub closed spec fn checked(self) -> Theme {
        self.active
    }

    /// The popover opened while the application shows `current`.
    pub fn new(current: Theme) -> (p: Self)
        ensures
            p.checked() == current,
            p.saved() == theme_name_of(current),
    {
        ThemePopover { theme: owned(theme_name(current)), active: current }
    }

    /// Apply the saved theme (none saved: follow the system); returns the
    /// scheme to apply.
    pub fn load_saved_theme(&mut self, saved: Option<&str>) -> (t: Theme)
        ensures
            t == (match saved {
                Some(n) => theme_for(n@),
                None => Theme::System,
            }),
            final(self).saved() == (match saved {
                Some(n) => n@,
                None => "system"@,
            }),
            final(self).checked() == old(self).checked(),
    {
        match saved {
            Some(n) => {
                self.theme = owned(n);
                Self::apply_theme(n)
            },
            None => {
                self.theme = owned("system");
                Theme::System
            },
        }
    }

    /// A theme button was activated: it gets the check mark and its name is
    /// to be saved.
    pub fn select_theme(&mut self, t: Theme) -> (name: &'static str)
        ensures
            final(self).checked() == t,
            final(self).saved() == theme_name_of(t),
            name@ == theme_name_of(t),
    {
        self.active = t;
        let n = theme_name(t);
        self.theme = owned(n);
        n
    }

    /// Whether the button for `t` shows the check mark.
    pub fn is_checked(&self, t: Theme) -> (b: bool)
        ensures
            b == (self.checked() == t),
    {
        self.active == t
    }
}

/// Saving a chosen theme and applying the saved name brings back the same
/// scheme.
pub proof fn law_theme_round_trip(t: Theme)
    ensures
        theme_for(theme_name_of(t)) == t,
{
    reveal_strlit("system");
    reveal_strlit("light");
    reveal_strlit("dark");
    assert("system"@ != "light"@ && "system"@ != "dark"@) by {
        assert("system"@.len() != "light"@.len());
        assert("system"@.len() != "dark"@.len());
    }
    assert("light"@ != "dark"@) by {
        assert("light"@.len() != "dark"@.len());
    }
}

} // verus!
