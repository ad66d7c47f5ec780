//! The languages offered for manual selection, their display names, and the
//! state of the language settings page.

use vstd::prelude::*;
use crate::text::{same, owned};

verus! {

/// Number of languages offered for manual selection.
pub const LANGUAGE_COUNT: usize = 20;

/// Whisper language code at a combo position.
pub open spec fn lang_code(i: int) -> Seq<char> {
    if i == 0 {
        "en"@
    } else if i == 1 {
        "el"@
    } else if i == 2 {
        "es"@
    } else if i == 3 {
        "fr"@
    } else if i == 4 {
        "de"@
    } else if i == 5 {
        "it"@
    } else if i == 6 {
        "pt"@
    } else if i == 7 {
        "ru"@
    } else if i == 8 {
        "zh"@
    } else if i == 9 {
        "ja"@
    } else if i == 10 {
        "ko"@
    } else if i == 11 {
        "ar"@
    } else if i == 12 {
        "hi"@
    } else if i == 13 {
        "nl"@
    } else if i == 14 {
        "pl"@
    } else if i == 15 {
        "sv"@
    } else if i == 16 {
        "tr"@
    } else if i == 17 {
        "uk"@
    } else if i == 18 {
        "vi"@
    } else {
        "th"@
    }
}

/// Display name at a combo position.
pub open spec fn lang_name(i: int) -> Seq<char> {
    if i == 0 {
        "English"@
    } else if i == 1 {
        "Greek"@
    } else if i == 2 {
        "Spanish"@
    } else if i == 3 {
        "French"@
    } else if i == 4 {
        "German"@
    } else if i == 5 {
        "Italian"@
    } else if i == 6 {
        "Portuguese"@
    } else if i == 7 {
        "Russian"@
    } else if i == 8 {
        "Chinese"@
    } else if i == 9 {
        "Japanese"@
    } else if i == 10 {
        "Korean"@
    } else if i == 11 {
        "Arabic"@
    } else if i == 12 {
        "Hindi"@
    } else if i == 13 {
        "Dutch"@
    } else if i == 14 {
        "Polish"@
    } else if i == 15 {
        "Swedish"@
    } else if i == 16 {
        "Turkish"@
    } else if i == 17 {
        "Ukrainian"@
    } else if i == 18 {
        "Vietnamese"@
    } else {
        "Thai"@
    }
}

/// The Whisper language code at combo position `i < 20`.
pub fn language_code_at(i: usize) -> (s: &'static str)
    requires
        i < LANGUAGE_COUNT,
    ensures
        s@ == lang_code(i as int),
{
    match i {
        0 => "en",
        1 => "el",
        2 => "es",
        3 => "fr",
        4 => "de",
        5 => "it",
        6 => "pt",
        7 => "ru",
        8 => "zh",
        9 => "ja",
        10 => "ko",
        11 => "ar",
        12 => "hi",
        13 => "nl",
        14 => "pl",
        15 => "sv",
        16 => "tr",
        17 => "uk",
        18 => "vi",
        _ => "th",
    }
}

/// The display name at combo position `i < 20`.
pub fn language_name_at(i: usize) -> (s: &'static str)
    requires
        i < LANGUAGE_COUNT,
    ensures
        s@ == lang_name(i as int),
{
    match i {
        0 => "English",
        1 => "Greek",
        2 => "Spanish",
        3 => "French",
        4 => "German",
        5 => "Italian",
        6 => "Portuguese",
        7 => "Russian",
        8 => "Chinese",
        9 => "Japanese",
        10 => "Korean",
        11 => "Arabic",
        12 => "Hindi",
        13 => "Dutch",
        14 => "Polish",
        15 => "Swedish",
        16 => "Turkish",
        17 => "Ukrainian",
        18 => "Vietnamese",
        _ => "Thai",
    }
}

/// `i` is the first combo position whose code is `code`.
pub open spec fn first_code_index(code: Seq<char>, i: int) -> bool {
    &&& 0 <= i < 20
    &&& lang_code(i) == code
    &&& forall|j: int| 0 <= j < i ==> lang_code(j) != code
}

/// Whether `code` is one of the offered codes.
pub open spec fn is_known_code(code: Seq<char>) -> bool {
    exists|i: int| first_code_index(code, i)
}

/// The combo position of a language code, if it is offered.
pub fn language_index(code: &str) -> (r: Option<usize>)
    ensures
        r matches Some(i) ==> first_code_index(code@, i as int),
        r is None <==> !is_known_code(code@),
{
    let mut i: usize = 0;
    while i < LANGUAGE_COUNT
        invariant
            i <= 20,
            forall|j: int| 0 <= j < i ==> lang_code(j) != code@,
        decreases 20 - i,
    {
        if same(code, language_code_at(i)) {
            assert(first_code_index(code@, i as int));
            return Some(i);
        }
        i = i + 1;
    }
    assert forall|k: int| !first_code_index(code@, k) by {}
    None
}

/// Display name of a language code: its name when the code is offered, the
/// code itself otherwise.
pub open spec fn code_to_name(code: Seq<char>) -> Seq<char> {
    if is_known_code(code) {
        lang_name(choose|i: int| first_code_index(code, i))
    } else {
        code
    }
}

/// Convert a language code to its display name ("el" gives "Greek"); an
/// unknown code is returned as is.
pub fn language_code_to_name(code: &str) -> (name: String)
    ensures
        name@ == code_to_name(code@),
{
    match language_index(code) {
        Some(i) => {
            proof {
                let k = choose|k: int| first_code_index(code@, k);
                assert(k == i as int) by {
                    if k < i {
                    } else if k > i {
                        assert(lang_code(i as int) == code@);
                    }
                }
            }
            owned(language_name_at(i))
        },
        None => owned(code),
    }
}

/// The language settings page: auto-detection, manual selection and the
/// translate-to-English switch.
pub struct LanguagePage {
    auto_detect: bool,
    auto_detect_sensitive: bool,
    selected: u32,
    translate: bool,
    translate_sensitive: bool,
}

impl LanguagePage {
    /// Auto-detect on (the default), first language selected, translation off.
    pub fn new() -> (p: Self)
        ensures
            p.spec_auto_detect(),
            p.spec_selected() == 0,
            !p.spec_translate(),
            p.spec_auto_detect_sensitive(),
            p.spec_translate_sensitive(),
    {
        LanguagePage {
            auto_detect: true,
            auto_detect_sensitive: true,
            selected: 0,
            translate: false,
            translate_sensitive: true,
        }
    }

    pub closed spec fn spec_auto_detect(self) -> bool {
        self.auto_detect
    }

    pub closed spec fn spec_auto_detect_sensitive(self) -> bool {
        self.auto_detect_sensitive
    }

    pub closed spec fn spec_selected(self) -> u32 {
        self.selected
    }

    pub closed spec fn spec_translate(self) -> bool {
        self.translate
    }

    pub closed spec fn spec_translate_sensitive(self) -> bool {
        self.translate_sensitive
    }

    /// Restore the saved detection flag and manual language (an unknown code
    /// leaves the selection unchanged).
    pub fn load_from_config(&mut self, auto_detect: bool, language: Option<&str>)
        ensures
            final(self).spec_auto_detect() == auto_detect,
            final(self).spec_translate() == old(self).spec_translate(),
            final(self).spec_auto_detect_sensitive() == old(self).spec_auto_detect_sensitive(),
            final(self).spec_translate_sensitive() == old(self).spec_translate_sensitive(),
            match language {
                Some(code) => if is_known_code(code@) {
                    first_code_index(code@, final(self).spec_selected() as int)
                } else {
                    final(self).spec_selected() == old(self).spec_selected()
                },
                None => final(self).spec_selected() == old(self).spec_selected(),
            },
    {
        self.auto_detect = auto_detect;
        if let Some(code) = language {
            if let Some(i) = language_index(code) {
                self.selected = i as u32;
            }
        }
    }

    /// Get whether auto-detect is enabled.
    pub fn is_auto_detect(&self) -> (b: bool)
        ensures
            b == self.spec_auto_detect(),
    {
        self.auto_detect
    }

    /// Get whether translate-to-English is enabled.
    pub fn is_translate_enabled(&self) -> (b: bool)
        ensures
            b == self.spec_translate(),
    {
        self.translate
    }

    /// Set auto-detect state.
    pub fn set_auto_detect(&mut self, enabled: bool)
        ensures
            final(self).spec_auto_detect() == enabled,
            final(self).spec_selected() == old(self).spec_selected(),
            final(self).spec_translate() == old(self).spec_translate(),
            final(self).spec_auto_detect_sensitive() == old(self).spec_auto_detect_sensitive(),
            final(self).spec_translate_sensitive() == old(self).spec_translate_sensitive(),
    {
        self.auto_detect = enabled;
    }

    /// Set translate state.
    pub fn set_translate_enabled(&mut self, enabled: bool)
        ensures
            final(self).spec_translate() == enabled,
            final(self).spec_auto_detect() == old(self).spec_auto_detect(),
            final(self).spec_selected() == old(self).spec_selected(),
            final(self).spec_auto_detect_sensitive() == old(self).spec_auto_detect_sensitive(),
            final(self).spec_translate_sensitive() == old(self).spec_translate_sensitive(),
    {
        self.translate = enabled;
    }

    /// The user picked a combo row: returns the code to persist (a position
    /// past the end saves the last language).
    pub fn select_language(&mut self, index: u32) -> (code: &'static str)
        ensures
            final(self).spec_selected() == index,
            final(self).spec_auto_detect() == old(self).spec_auto_detect(),
            final(self).spec_translate() == old(self).spec_translate(),
            final(self).spec_auto_detect_sensitive() == old(self).spec_auto_detect_sensitive(),
            final(self).spec_translate_sensitive() == old(self).spec_translate_sensitive(),
            code@ == lang_code(if index < 20 { index as int } else { 19 }),
    {
        self.selected = index;
        let i = if index < 20 {
            index as usize
        } else {
            19
        };
        language_code_at(i)
    }

    /// The manual-selection combo is usable only while auto-detect is off.
    pub fn language_combo_sensitive(&self) -> (b: bool)
        ensures
            b == !self.spec_auto_detect(),
    {
        !self.auto_detect
    }

    /// Get the target language name for translation (always English for Whisper).
    pub fn selected_target_language_name(&self) -> (s: String)
        ensures
            s@ == "English"@,
    {
        owned("English")
    }

    /// Get the target language code for translation (always "en" for Whisper).
    pub fn selected_target_language_code(&self) -> (s: String)
        ensures
            s@ == "en"@,
    {
        owned("en")
    }

    /// Get the display name of the currently selected language
    /// ("Auto-detect" while auto-detect is on or past the end of the list).
    pub fn selected_language_name(&self) -> (s: String)
        ensures
            self.spec_auto_detect() ==> s@ == "Auto-detect"@,
            !self.spec_auto_detect() && self.spec_selected() < 20 ==> s@ == lang_name(
                self.spec_selected() as int,
            ),
            !self.spec_auto_detect() && self.spec_selected() >= 20 ==> s@ == "Auto-detect"@,
    {
        if self.auto_detect || self.selected >= 20 {
            owned("Auto-detect")
        } else {
            owned(language_name_at(self.selected as usize))
        }
    }

    /// Get the selected language code for Whisper, or `None` for auto-detect
    /// (and past the end of the list).
    pub fn selected_language_code(&self) -> (r: Option<String>)
        ensures
            self.spec_auto_detect() || self.spec_selected() >= 20 ==> r is None,
            !self.spec_auto_detect() && self.spec_selected() < 20 ==> (r matches Some(c) && c@
                == lang_code(self.spec_selected() as int)),
    {
        if self.auto_detect || self.selected >= 20 {
            None
        } else {
            Some(owned(language_code_at(self.selected as usize)))
        }
    }

    /// Enable/disable auto-detect based on backend capabilities; unavailable
    /// also switches it off.
    pub fn set_auto_detect_available(&mut self, available: bool)
        ensures
            final(self).spec_auto_detect_sensitive() == available,
            final(self).spec_auto_detect() == (old(self).spec_auto_detect() && available),
            final(self).spec_selected() == old(self).spec_selected(),
            final(self).spec_translate() == old(self).spec_translate(),
            final(self).spec_translate_sensitive() == old(self).spec_translate_sensitive(),
    {
        self.auto_detect_sensitive = available;
        if !available {
            self.auto_detect = false;
        }
    }

    /// Enable/disable translation based on backend capabilities; unavailable
    /// also switches it off.
    pub fn set_translation_available(&mut self, available: bool)
        ensures
            final(self).spec_translate_sensitive() == available,
            final(self).spec_translate() == (old(self).spec_translate() && available),
            final(self).spec_selected() == old(self).spec_selected(),
            final(self).spec_auto_detect() == old(self).spec_auto_detect(),
            final(self).spec_auto_detect_sensitive() == old(self).spec_auto_detect_sensitive(),
    {
        self.translate_sensitive = available;
        if !available {
            self.translate = false;
        }
    }
}

/// Whether `code` is the two-letter code `a` `b`.
pub open spec fn is_code(code: Seq<char>, a: char, b: char) -> bool {
    code.len() == 2 && code[0] == a && code[1] == b
}

/// The English name of a language, by its ISO 639-1 code (alphabetical by
/// code), for the languages offered.
pub open spec fn language_of_code(code: Seq<char>) -> Option<Seq<char>> {
    if is_code(code, 'a', 'r') {
        Some("Arabic"@)
    } else if is_code(code, 'd', 'e') {
        Some("German"@)
    } else if is_code(code, 'e', 'l') {
        Some("Greek"@)
    } else if is_code(code, 'e', 'n') {
        Some("English"@)
    } else if is_code(code, 'e', 's') {
        Some("Spanish"@)
    } else if is_code(code, 'f', 'r') {
        Some("French"@)
    } else if is_code(code, 'h', 'i') {
        Some("Hindi"@)
    } else if is_code(code, 'i', 't') {
        Some("Italian"@)
    } else if is_code(code, 'j', 'a') {
        Some("Japanese"@)
    } else if is_code(code, 'k', 'o') {
        Some("Korean"@)
    } else if is_code(code, 'n', 'l') {
        Some("Dutch"@)
    } else if is_code(code, 'p', 'l') {
        Some("Polish"@)
    } else if is_code(code, 'p', 't') {
        Some("Portuguese"@)
    } else if is_code(code, 'r', 'u') {
        Some("Russian"@)
    } else if is_code(code, 's', 'v') {
        Some("Swedish"@)
    } else if is_code(code, 't', 'h') {
        Some("Thai"@)
    } else if is_code(code, 't', 'r') {
        Some("Turkish"@)
    } else if is_code(code, 'u', 'k') {
        Some("Ukrainian"@)
    } else if is_code(code, 'v', 'i') {
        Some("Vietnamese"@)
    } else if is_code(code, 'z', 'h') {
        Some("Chinese"@)
    } else {
        None
    }
}

/// Every offered language is shown under its own name: the name at each
/// position is the name of the language whose code sits there, so a code is
/// named after its own language, never after a neighbour's.
pub proof fn law_names_match_codes(i: int)
    requires
        0 <= i < 20,
    ensures
        language_of_code(lang_code(i)) == Some(lang_name(i)),
        code_to_name(lang_code(i)) == lang_name(i),
{
    reveal_strlit("en");
    reveal_strlit("el");
    reveal_strlit("es");
    reveal_strlit("fr");
    reveal_strlit("de");
    reveal_strlit("it");
    reveal_strlit("pt");
    reveal_strlit("ru");
    reveal_strlit("zh");
    reveal_strlit("ja");
    reveal_strlit("ko");
    reveal_strlit("ar");
    reveal_strlit("hi");
    reveal_strlit("nl");
    reveal_strlit("pl");
    reveal_strlit("sv");
    reveal_strlit("tr");
    reveal_strlit("uk");
    reveal_strlit("vi");
    reveal_strlit("th");
    reveal_strlit("English");
    reveal_strlit("Greek");
    reveal_strlit("Spanish");
    reveal_strlit("French");
    reveal_strlit("German");
    reveal_strlit("Italian");
    reveal_strlit("Portuguese");
    reveal_strlit("Russian");
    reveal_strlit("Chinese");
    reveal_strlit("Japanese");
    reveal_strlit("Korean");
    reveal_strlit("Arabic");
    reveal_strlit("Hindi");
    reveal_strlit("Dutch");
    reveal_strlit("Polish");
    reveal_strlit("Swedish");
    reveal_strlit("Turkish");
    reveal_strlit("Ukrainian");
    reveal_strlit("Vietnamese");
    reveal_strlit("Thai");
    assert forall|j: int| 0 <= j < i implies lang_code(j) != lang_code(i) by {
        assert(lang_code(j).len() == 2 && lang_code(i).len() == 2);
        assert(lang_code(j)[0] != lang_code(i)[0] || lang_code(j)[1] != lang_code(i)[1]);
    }
    law_code_names_language(i);
    if i == 0 {
        assert(lang_code(i) == "en"@);
    } else if i == 1 {
        assert(lang_code(i) == "el"@);
    } else if i == 2 {
        assert(lang_code(i) == "es"@);
    } else if i == 3 {
        assert(lang_code(i) == "fr"@);
    } else if i == 4 {
        assert(lang_code(i) == "de"@);
    } else if i == 5 {
        assert(lang_code(i) == "it"@);
    } else if i == 6 {
        assert(lang_code(i) == "pt"@);
    } else if i == 7 {
        assert(lang_code(i) == "ru"@);
    } else if i == 8 {
        assert(lang_code(i) == "zh"@);
    } else if i == 9 {
        assert(lang_code(i) == "ja"@);
    } else if i == 10 {
        assert(lang_code(i) == "ko"@);
    } else if i == 11 {
        assert(lang_code(i) == "ar"@);
    } else if i == 12 {
        assert(lang_code(i) == "hi"@);
    } else if i == 13 {
        assert(lang_code(i) == "nl"@);
    } else if i == 14 {
        assert(lang_code(i) == "pl"@);
    } else if i == 15 {
        assert(lang_code(i) == "sv"@);
    } else if i == 16 {
        assert(lang_code(i) == "tr"@);
    } else if i == 17 {
        assert(lang_code(i) == "uk"@);
    } else if i == 18 {
        assert(lang_code(i) == "vi"@);
    } else if i == 19 {
        assert(lang_code(i) == "th"@);
    }
}

/// Every offered language's code names it: the first position with a code
/// is found again from that code, and its display name is the one listed.
pub proof fn law_code_names_language(i: int)
    requires
        0 <= i < 20,
        forall|j: int| 0 <= j < i ==> lang_code(j) != lang_code(i),
    ensures
        is_known_code(lang_code(i)),
        code_to_name(lang_code(i)) == lang_name(i),
{
    assert(first_code_index(lang_code(i), i));
    let k = choose|k: int| first_code_index(lang_code(i), k);
    assert(k == i) by {
        if k < i {
        } else if k > i {
        }
    }
}

} // verus!
