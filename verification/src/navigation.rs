//! Sidebar navigation: the pages, their icons and titles, the stack page
//! names, and the collapsed/expanded sidebar layout.

use vstd::prelude::*;
use crate::text::same;

verus! {

/// Navigation items for the sidebar.
#[derive(Debug, Clone, Copy, PartialEq, Eq, Structural)]
pub enum NavItem {
    Transcription,
    History,
    Microphone,
    Model,
    Language,
    Performance,
    Help,
}

/// Position of an item in the sidebar.
pub open spec fn nav_index(item: NavItem) -> nat {
    match item {
        NavItem::Transcription => 0,
        NavItem::History => 1,
        NavItem::Microphone => 2,
        NavItem::Model => 3,
        NavItem::Language => 4,
        NavItem::Performance => 5,
        NavItem::Help => 6,
    }
}

/// The item at a sidebar position.
pub open spec fn nav_at(i: int) -> Option<NavItem> {
    if i == 0 {
        Some(NavItem::Transcription)
    } else if i == 1 {
        Some(NavItem::History)
    } else if i == 2 {
        Some(NavItem::Microphone)
    } else if i == 3 {
        Some(NavItem::Model)
    } else if i == 4 {
        Some(NavItem::Language)
    } else if i == 5 {
        Some(NavItem::Performance)
    } else if i == 6 {
        Some(NavItem::Help)
    } else {
        None
    }
}

pub open spec fn nav_icon(item: NavItem) -> Seq<char> {
    match item {
        NavItem::Transcription => "audio-input-microphone-symbolic"@,
        NavItem::History => "document-open-recent-symbolic"@,
        NavItem::Microphone => "audio-card-symbolic"@,
        NavItem::Model => "system-software-install-symbolic"@,
        NavItem::Language => "preferences-desktop-locale-symbolic"@,
        NavItem::Performance => "preferences-system-symbolic"@,
        NavItem::Help => "help-about-symbolic"@,
    }
}

pub open spec fn nav_title(item: NavItem) -> Seq<char> {
    match item {
        NavItem::Transcription => "Transcription"@,
        NavItem::History => "History"@,
        NavItem::Microphone => "Microphone"@,
        NavItem::Model => "Model"@,
        NavItem::Language => "Language"@,
        NavItem::Performance => "Performance"@,
        NavItem::Help => "Help"@,
    }
}

/// Name of the content-stack page shown for an item.
pub open spec fn nav_page(item: NavItem) -> Seq<char> {
    match item {
        NavItem::Transcription => "transcription"@,
        NavItem::History => "history"@,
        NavItem::Microphone => "microphone"@,
        NavItem::Model => "model"@,
        NavItem::Language => "language"@,
        NavItem::Performance => "performance"@,
        NavItem::Help => "help"@,
    }
}

/// ASCII letters lowered, every other character kept.
pub open spec fn ascii_lower(s: Seq<char>) -> Seq<char> {
    s.map_values(|c: char| if 'A' <= c && c <= 'Z' { ((c as u32) + 32) as char } else { c })
}

/// Each sidebar row opens its own page: the page's name is the row's title
/// in lowercase.
pub proof fn law_title_names_page(item: NavItem)
    ensures
        nav_page(item) == ascii_lower(nav_title(item)),
{
    reveal_strlit("Transcription");
    reveal_strlit("History");
    reveal_strlit("Microphone");
    reveal_strlit("Model");
    reveal_strlit("Language");
    reveal_strlit("Performance");
    reveal_strlit("Help");
    reveal_strlit("transcription");
    reveal_strlit("history");
    reveal_strlit("microphone");
    reveal_strlit("model");
    reveal_strlit("language");
    reveal_strlit("performance");
    reveal_strlit("help");
    assert(nav_page(item) =~= ascii_lower(nav_title(item)));
}

/// The pages listed under the settings spacer.
pub open spec fn nav_is_settings(item: NavItem) -> bool {
    item == NavItem::Microphone || item == NavItem::Model || item == NavItem::Language || item
        == NavItem::Performance
}

impl NavItem {
    pub fn icon_name(&self) -> (s: &'static str)
        ensures
            s@ == nav_icon(*self),
    {
        match self {
            NavItem::Transcription => "audio-input-microphone-symbolic",
            NavItem::History => "document-open-recent-symbolic",
            NavItem::Microphone => "audio-card-symbolic",
            NavItem::Model => "system-software-install-symbolic",
            NavItem::Language => "preferences-desktop-locale-symbolic",
            NavItem::Performance => "preferences-system-symbolic",
            NavItem::Help => "help-about-symbolic",
        }
    }

    pub fn title(&self) -> (s: &'static str)
        ensures
            s@ == nav_title(*self),
    {
        match self {
            NavItem::Transcription => "Transcription",
            NavItem::History => "History",
            NavItem::Microphone => "Microphone",
            NavItem::Model => "Model",
            NavItem::Language => "Language",
            NavItem::Performance => "Performance",
            NavItem::Help => "Help",
        }
    }

    /// Whether this is a settings page (shown under the "Settings" spacer).
    pub fn is_settings(&self) -> (b: bool)
        ensures
            b == nav_is_settings(*self),
    {
        match self {
            NavItem::Microphone | NavItem::Model | NavItem::Language | NavItem::Performance => true,
            _ => false,
        }
    }

    /// Every item, in sidebar order.
    pub fn all() -> (v: Vec<NavItem>)
        ensures
            v@.len() == 7,
            forall|i: int| 0 <= i < 7 ==> nav_at(i) == Some(#[trigger] v@[i]),
    {
        vec![
            NavItem::Transcription,
            NavItem::History,
            NavItem::Microphone,
            NavItem::Model,
            NavItem::Language,
            NavItem::Performance,
            NavItem::Help,
        ]
    }

    /// The item of a sidebar row.
    pub fn from_index(index: usize) -> (r: Option<NavItem>)
        ensures
            r == nav_at(index as int),
    {
        match index {
            0 => Some(NavItem::Transcription),
            1 => Some(NavItem::History),
            2 => Some(NavItem::Microphone),
            3 => Some(NavItem::Model),
            4 => Some(NavItem::Language),
            5 => Some(NavItem::Performance),
            6 => Some(NavItem::Help),
            _ => None,
        }
    }

    /// The content-stack page shown for this item.
    pub fn page_name(&self) -> (s: &'static str)
        ensures
            s@ == nav_page(*self),
    {
        match self {
            NavItem::Transcription => "transcription",
            NavItem::History => "history",
            NavItem::Microphone => "microphone",
            NavItem::Model => "model",
            NavItem::Language => "language",
            NavItem::Performance => "performance",
            NavItem::Help => "help",
        }
    }

    /// The item named by the `win.navigate` action parameter, if any.
    pub fn from_page_name(name: &str) -> (r: Option<NavItem>)
        ensures
            r matches Some(item) ==> nav_page(item) == name@,
            r is None ==> forall|item: NavItem| nav_page(item) != name@,
    {
        if same(name, "transcription") {
            Some(NavItem::Transcription)
        } else if same(name, "history") {
            Some(NavItem::History)
        } else if same(name, "microphone") {
            Some(NavItem::Microphone)
        } else if same(name, "model") {
            Some(NavItem::Model)
        } else if same(name, "language") {
            Some(NavItem::Language)
        } else if same(name, "performance") {
            Some(NavItem::Performance)
        } else if same(name, "help") {
            Some(NavItem::Help)
        } else {
            None
        }
    }
}

/// Every item sits at its own sidebar position, settings pages are the
/// middle four, and distinct items have distinct page names (so the
/// navigate action finds exactly the item whose page it names).
pub proof fn law_nav_round_trip(item: NavItem, other: NavItem)
    ensures
        nav_at(nav_index(item) as int) == Some(item),
        nav_is_settings(item) <==> 2 <= nav_index(item) <= 5,
        nav_page(item) == nav_page(other) ==> item == other,
{
    reveal_strlit("transcription");
    reveal_strlit("history");
    reveal_strlit("microphone");
    reveal_strlit("model");
    reveal_strlit("language");
    reveal_strlit("performance");
    reveal_strlit("help");
    if nav_page(item) == nav_page(other) && item != other {
        assert(nav_page(item).len() != nav_page(other).len() || nav_page(item)[0] != nav_page(
            other,
        )[0] || nav_page(item)[1] != nav_page(other)[1]);
    }
}

/// Sidebar row geometry and the toggle button for a collapsed or expanded sidebar.
#[derive(Debug, Clone, Copy, PartialEq, Eq)]
pub struct SidebarLayout {
    /// Requested sidebar width in pixels.
    pub width: i32,
    /// Whether titles, labels, the info box and the GPU panel are shown.
    pub labels_visible: bool,
    /// Start/end margin of each navigation row.
    pub row_margin: i32,
    /// Spacing between a row's icon and label.
    pub row_spacing: i32,
    /// Rows are centred (collapsed) rather than filled.
    pub rows_centered: bool,
    /// Whether the "sidebar-collapsed" style class is set.
    pub collapsed_style: bool,
    pub toggle_tooltip: &'static str,
    pub toggle_icon: &'static str,
}

pub open spec fn layout_for(collapsed: bool) -> (i32, bool, i32, i32, bool) {
    if collapsed {
        (50, false, 0, 0, true)
    } else {
        (220, true, 12, 12, false)
    }
}

/// The sidebar layout for a collapsed or expanded sidebar.
pub fn sidebar_layout(collapsed: bool) -> (l: SidebarLayout)
    ensures
        (l.width, l.labels_visible, l.row_margin, l.row_spacing, l.rows_centered) == layout_for(
            collapsed,
        ),
        l.collapsed_style == collapsed,
        collapsed ==> l.toggle_tooltip@ == "Expand sidebar"@ && l.toggle_icon@
            == "sidebar-show-right-symbolic"@,
        !collapsed ==> l.toggle_tooltip@ == "Collapse sidebar"@ && l.toggle_icon@
            == "sidebar-show-symbolic"@,
{
    if collapsed {
        SidebarLayout {
            width: 50,
            labels_visible: false,
            row_margin: 0,
            row_spacing: 0,
            rows_centered: true,
            collapsed_style: true,
            toggle_tooltip: "Expand sidebar",
            toggle_icon: "sidebar-show-right-symbolic",
        }
    } else {
        SidebarLayout {
            width: 220,
            labels_visible: true,
            row_margin: 12,
            row_spacing: 12,
            rows_centered: false,
            collapsed_style: false,
            toggle_tooltip: "Collapse sidebar",
            toggle_icon: "sidebar-show-symbolic",
        }
    }
}

/// Toggle the sidebar: returns the new collapsed flag and its layout.
pub fn toggle_sidebar(collapsed: bool) -> (r: (bool, SidebarLayout))
    ensures
        r.0 == !collapsed,
        (r.1.width, r.1.labels_visible, r.1.row_margin, r.1.row_spacing, r.1.rows_centered)
            == layout_for(!collapsed),
        r.1.collapsed_style == !collapsed,
{
    let c = !collapsed;
    (c, sidebar_layout(c))
}

/// Toggling twice restores the original layout.
pub proof fn law_toggle_twice(collapsed: bool)
    ensures
        layout_for(!!collapsed) == layout_for(collapsed),
{
}

/// Index of a Whisper model size in the header dropdown, from its base id
/// (unknown ids select "base").
pub open spec fn whisper_dropdown_index(base_id: Seq<char>) -> u32 {
    if base_id == "tiny"@ {
        0
    } else if base_id == "base"@ {
        1
    } else if base_id == "small"@ {
        2
    } else if base_id == "medium"@ {
        3
    } else if base_id == "large-v3"@ {
        4
    } else {
        1
    }
}

/// Index of a Whisper model size in the header dropdown.
pub fn model_dropdown_index(base_id: &str) -> (i: u32)
    ensures
        i == whisper_dropdown_index(base_id@),
{
    if same(base_id, "tiny") {
        0
    } else if same(base_id, "base") {
        1
    } else if same(base_id, "small") {
        2
    } else if same(base_id, "medium") {
        3
    } else if same(base_id, "large-v3") {
        4
    } else {
        1
    }
}

/// Which page the main window shows and whether the sidebar is collapsed.
pub struct Navigation {
    current: Option<NavItem>,
    collapsed: bool,
}

impl Navigation {
    pub closed spec fn current(self) -> Option<NavItem> {
        self.current
    }

    pub closed spec fn collapsed(self) -> bool {
        self.collapsed
    }

    /// The window opens on the first sidebar row with the sidebar expanded.
    pub fn new() -> (n: Self)
        ensures
            n.current() == Some(NavItem::Transcription),
            !n.collapsed(),
    {
        Navigation { current: Some(NavItem::Transcription), collapsed: false }
    }

    /// Show the page of `item`; returns the content-stack page name.
    pub fn navigate_to(&mut self, item: NavItem) -> (page: &'static str)
        ensures
            final(self).current() == Some(item),
            final(self).collapsed() == old(self).collapsed(),
            page@ == nav_page(item),
    {
        self.current = Some(item);
        item.page_name()
    }

    /// A sidebar row was selected: navigate to its item (rows past the end
    /// change nothing).
    pub fn row_selected(&mut self, index: usize) -> (page: Option<&'static str>)
        ensures
            match nav_at(index as int) {
                Some(item) => final(self).current() == Some(item) && (page matches Some(p) && p@
                    == nav_page(item)),
                None => final(self).current() == old(self).current() && page is None,
            },
            final(self).collapsed() == old(self).collapsed(),
    {
        match NavItem::from_index(index) {
            Some(item) => Some(self.navigate_to(item)),
            None => None,
        }
    }

    /// The `win.navigate` action with a page name: unknown names do nothing.
    pub fn navigate_action(&mut self, name: &str) -> (page: Option<&'static str>)
        ensures
            match page {
                Some(p) => p@ == name@ && (final(self).current() matches Some(item) && nav_page(item)
                    == name@),
                None => final(self).current() == old(self).current() && forall|item: NavItem|
                    nav_page(item) != name@,
            },
            final(self).collapsed() == old(self).collapsed(),
    {
        match NavItem::from_page_name(name) {
            Some(item) => Some(self.navigate_to(item)),
            None => None,
        }
    }

    /// The `win.toggle-sidebar` action: returns the new layout.
    pub fn toggle(&mut self) -> (l: SidebarLayout)
        ensures
            final(self).collapsed() == !old(self).collapsed(),
            final(self).current() == old(self).current(),
            (l.width, l.labels_visible, l.row_margin, l.row_spacing, l.rows_centered) == layout_for(
                !old(self).collapsed(),
            ),
    {
        let (c, l) = toggle_sidebar(self.collapsed);
        self.collapsed = c;
        l
    }

    /// The page shown.
    pub fn current_page(&self) -> (p: Option<&'static str>)
        ensures
            match self.current() {
                Some(item) => p matches Some(s) && s@ == nav_page(item),
                None => p is None,
            },
    {
        match self.current {
            Some(item) => Some(item.page_name()),
            None => None,
        }
    }
}

/// The sidebar position before which the settings group begins (a spacer
/// is inserted there): the first settings item.
pub fn settings_start() -> (i: usize)
    ensures
        nav_is_settings(nav_at(i as int).unwrap()),
        forall|j: int| 0 <= j < i ==> !nav_is_settings(nav_at(j).unwrap()),
        i < 7,
{
    let items = NavItem::all();
    let mut i: usize = 0;
    while i < items.len()
        invariant
            items@.len() == 7,
            forall|k: int| 0 <= k < 7 ==> nav_at(k) == Some(#[trigger] items@[k]),
            i <= 7,
            forall|j: int| 0 <= j < i ==> !nav_is_settings(nav_at(j).unwrap()),
        decreases 7 - i,
    {
        if items[i].is_settings() {
            return i;
        }
        i = i + 1;
    }
    proof {
        assert(nav_is_settings(nav_at(2).unwrap()));
    }
    2
}

/// A sidebar section header: its text, margins (start, top, bottom) and
/// style classes.
pub struct SectionHeader {
    pub text: String,
    pub margin_start: i32,
    pub margin_top: i32,
    pub margin_bottom: i32,
    pub classes: (&'static str, &'static str, &'static str),
}

/// A dimmed caption heading for a group of sidebar rows.
pub fn create_section_header(title: &str) -> (h: SectionHeader)
    ensures
        h.text@ == title@,
        h.margin_start == 12 && h.margin_top == 12 && h.margin_bottom == 4,
        h.classes.0@ == "dim-label"@ && h.classes.1@ == "caption"@ && h.classes.2@
            == "sidebar-section-header"@,
{
    SectionHeader {
        text: crate::text::owned(title),
        margin_start: 12,
        margin_top: 12,
        margin_bottom: 4,
        classes: ("dim-label", "caption", "sidebar-section-header"),
    }
}

/// The sidebar is laid out by the main window; this type stands for it.
pub struct Sidebar;

impl Sidebar {
    pub fn new() -> (s: Self) {
        Sidebar
    }
}

} // verus!
