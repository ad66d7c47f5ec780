//! The LLM settings: provider quick-fill, the privacy-consent rules for the
//! endpoint, model discovery results, and the editable prompt presets.

use vstd::prelude::*;
use crate::text::{owned, push_str, push_decimal, decimal, same, is_blank, has_non_ws, has_prefix};
use crate::transcript::texts;
use crate::model_page::{token_action, TokenAction};

verus! {

/// Number of provider quick-fill entries (the last one is "Custom").
pub const PROVIDER_COUNT: usize = 5;

/// Provider label at a combo position.
pub open spec fn provider_name(i: int) -> Seq<char> {
    if i == 0 {
        "LM Studio"@
    } else if i == 1 {
        "Ollama"@
    } else if i == 2 {
        "vLLM"@
    } else if i == 3 {
        "OpenAI"@
    } else {
        "Custom"@
    }
}

/// Default base URL of a provider ("Custom" has none).
pub open spec fn provider_url(i: int) -> Seq<char> {
    if i == 0 {
        "http://localhost:1234/v1"@
    } else if i == 1 {
        "http://localhost:11434/v1"@
    } else if i == 2 {
        "http://localhost:8000/v1"@
    } else if i == 3 {
        "https://api.openai.com/v1"@
    } else {
        Seq::empty()
    }
}

fn provider_url_at(i: usize) -> (s: &'static str)
    ensures
        s@ == provider_url(i as int),
{
    if i == 0 {
        "http://localhost:1234/v1"
    } else if i == 1 {
        "http://localhost:11434/v1"
    } else if i == 2 {
        "http://localhost:8000/v1"
    } else if i == 3 {
        "https://api.openai.com/v1"
    } else {
        proof {
            reveal_strlit("");
        }
        ""
    }
}

/// The provider label shown at a combo position.
pub fn provider_label(i: usize) -> (s: &'static str)
    ensures
        s@ == provider_name(i as int),
{
    if i == 0 {
        "LM Studio"
    } else if i == 1 {
        "Ollama"
    } else if i == 2 {
        "vLLM"
    } else if i == 3 {
        "OpenAI"
    } else {
        "Custom"
    }
}

/// Which provider a saved URL belongs to: the first provider with that
/// (non-empty) default URL, else "Custom".
pub open spec fn provider_index_of(url: Seq<char>, r: int) -> bool {
    &&& 0 <= r < PROVIDER_COUNT
    &&& r < PROVIDER_COUNT - 1 ==> provider_url(r).len() > 0 && provider_url(r) == url && forall|
        j: int,
    |
        0 <= j < r ==> provider_url(j) != url
    &&& r == PROVIDER_COUNT - 1 ==> forall|j: int|
        0 <= j < PROVIDER_COUNT - 1 ==> provider_url(j) != url
}

/// The provider combo position for a saved URL.
pub fn provider_index(url: &str) -> (r: usize)
    ensures
        provider_index_of(url@, r as int),
{
    let mut i: usize = 0;
    while i < PROVIDER_COUNT - 1
        invariant
            i <= PROVIDER_COUNT - 1,
            forall|j: int| 0 <= j < i ==> provider_url(j) != url@,
        decreases PROVIDER_COUNT - 1 - i,
    {
        let u = provider_url_at(i);
        if u.unicode_len() != 0 && same(u, url) {
            return i;
        }
        proof {
            if u@.len() == 0 {
                reveal_strlit("http://localhost:1234/v1");
                reveal_strlit("http://localhost:11434/v1");
                reveal_strlit("http://localhost:8000/v1");
                reveal_strlit("https://api.openai.com/v1");
            }
        }
        i = i + 1;
    }
    PROVIDER_COUNT - 1
}

/// The URL a provider choice fills in; "Custom" (and anything past it)
/// leaves the URL untouched.
pub fn provider_choice(selected: u32) -> (url: Option<&'static str>)
    ensures
        selected < 4 ==> (url matches Some(u) && u@ == provider_url(selected as int)),
        selected >= 4 ==> url is None,
{
    let idx: usize = if (selected as usize) < PROVIDER_COUNT - 1 {
        selected as usize
    } else {
        PROVIDER_COUNT - 1
    };
    let u = provider_url_at(idx);
    proof {
        reveal_strlit("http://localhost:1234/v1");
        reveal_strlit("http://localhost:11434/v1");
        reveal_strlit("http://localhost:8000/v1");
        reveal_strlit("https://api.openai.com/v1");
    }
    if u.unicode_len() == 0 {
        None
    } else {
        Some(u)
    }
}

/// The base URL each known server exposes its OpenAI-compatible API at,
/// by the server's name: LM Studio on port 1234, Ollama on 11434 and vLLM on
/// 8000 of this machine, OpenAI's cloud API over HTTPS.
pub open spec fn default_endpoint(name: Seq<char>) -> Option<Seq<char>> {
    if name == "OpenAI"@ {
        Some("https://api.openai.com/v1"@)
    } else if name == "vLLM"@ {
        Some("http://localhost:8000/v1"@)
    } else if name == "Ollama"@ {
        Some("http://localhost:11434/v1"@)
    } else if name == "LM Studio"@ {
        Some("http://localhost:1234/v1"@)
    } else {
        None
    }
}

/// Picking a provider fills in that provider's own endpoint: the URL at each
/// position is the default endpoint of the server named there, the three
/// local servers' URLs point at this machine and only OpenAI's goes over
/// HTTPS to the cloud; "Custom" fills in nothing.
pub proof fn law_provider_fills_its_own_url(i: int)
    requires
        0 <= i < PROVIDER_COUNT,
    ensures
        i < PROVIDER_COUNT - 1 ==> default_endpoint(provider_name(i)) == Some(provider_url(i)),
        i == PROVIDER_COUNT - 1 ==> default_endpoint(provider_name(i)) is None
            && provider_url(i).len() == 0,
        i < PROVIDER_COUNT - 1 && provider_name(i) != "OpenAI"@ ==> has_prefix(
            provider_url(i),
            "http://localhost:"@,
        ),
        i < PROVIDER_COUNT - 1 && provider_name(i) == "OpenAI"@ ==> has_prefix(
            provider_url(i),
            "https://"@,
        ),
{
    reveal_strlit("LM Studio");
    reveal_strlit("Ollama");
    reveal_strlit("vLLM");
    reveal_strlit("OpenAI");
    reveal_strlit("Custom");
    reveal_strlit("http://localhost:1234/v1");
    reveal_strlit("http://localhost:11434/v1");
    reveal_strlit("http://localhost:8000/v1");
    reveal_strlit("https://api.openai.com/v1");
    reveal_strlit("http://localhost:");
    reveal_strlit("https://");
    assert("Ollama"@ != "OpenAI"@ && "Ollama"@ != "vLLM"@) by {
        assert("Ollama"@[1] != "OpenAI"@[1]);
        assert("Ollama"@[0] != "vLLM"@[0]);
    }
    assert("Custom"@ != "OpenAI"@ && "Custom"@ != "Ollama"@) by {
        assert("Custom"@[0] != "OpenAI"@[0]);
        assert("Custom"@[0] != "Ollama"@[0]);
    }
    assert("LM Studio"@ != "OpenAI"@ && "LM Studio"@ != "Ollama"@ && "LM Studio"@ != "vLLM"@) by {
        assert("LM Studio"@[0] != "OpenAI"@[0]);
        assert("LM Studio"@[0] != "Ollama"@[0]);
        assert("LM Studio"@[0] != "vLLM"@[0]);
    }
    assert("vLLM"@ != "OpenAI"@ && "Custom"@ != "vLLM"@ && "Custom"@ != "LM Studio"@) by {
        assert("vLLM"@[0] != "OpenAI"@[0]);
        assert("Custom"@[0] != "vLLM"@[0]);
        assert("Custom"@[0] != "LM Studio"@[0]);
    }
    if i == 0 {
        assert(provider_url(i).subrange(0, 17) =~= "http://localhost:"@);
    } else if i == 1 {
        assert(provider_url(i).subrange(0, 17) =~= "http://localhost:"@);
    } else if i == 2 {
        assert(provider_url(i).subrange(0, 17) =~= "http://localhost:"@);
    } else if i == 3 {
        assert(provider_url(i).subrange(0, 8) =~= "https://"@);
    }
}

/// Choosing a provider and restoring the page from the URL it filled in
/// selects that provider again.
pub proof fn law_provider_round_trip(i: int)
    requires
        0 <= i < PROVIDER_COUNT - 1,
    ensures
        provider_index_of(provider_url(i), i),
{
    reveal_strlit("http://localhost:1234/v1");
    reveal_strlit("http://localhost:11434/v1");
    reveal_strlit("http://localhost:8000/v1");
    reveal_strlit("https://api.openai.com/v1");
    assert("http://localhost:1234/v1"@[18] != "http://localhost:11434/v1"@[18]);
    assert("http://localhost:1234/v1"@[17] != "http://localhost:8000/v1"@[17]);
    assert("http://localhost:11434/v1"@[17] != "http://localhost:8000/v1"@[17]);
    assert("https://api.openai.com/v1"@[4] != "http://localhost:1234/v1"@[4]);
    assert("https://api.openai.com/v1"@[4] != "http://localhost:11434/v1"@[4]);
    assert("https://api.openai.com/v1"@[4] != "http://localhost:8000/v1"@[4]);
}

/// Number of target languages offered for translate presets.
pub const TRANSLATE_COUNT: usize = 11;

/// Target language at a position of the list (after "not a translate preset").
pub open spec fn translate_lang(i: int) -> Seq<char> {
    if i == 0 {
        "English"@
    } else if i == 1 {
        "Greek"@
    } else if i == 2 {
        "Spanish"@
    } else if i == 3 {
        "French"@
    } else if i == 4 {
        "German"@
    } else if i == 5 {
        "Italian"@
    } else if i == 6 {
        "Portuguese"@
    } else if i == 7 {
        "Russian"@
    } else if i == 8 {
        "Chinese"@
    } else if i == 9 {
        "Japanese"@
    } else {
        "Arabic"@
    }
}

fn translate_lang_at(i: usize) -> (s: &'static str)
    requires
        i < TRANSLATE_COUNT,
    ensures
        s@ == translate_lang(i as int),
{
    if i == 0 {
        "English"
    } else if i == 1 {
        "Greek"
    } else if i == 2 {
        "Spanish"
    } else if i == 3 {
        "French"
    } else if i == 4 {
        "German"
    } else if i == 5 {
        "Italian"
    } else if i == 6 {
        "Portuguese"
    } else if i == 7 {
        "Russian"
    } else if i == 8 {
        "Chinese"
    } else if i == 9 {
        "Japanese"
    } else {
        "Arabic"
    }
}

/// The "Translate to" entries: "— not a translate preset —" and the languages.
pub fn translate_entries() -> (v: Vec<String>)
    ensures
        v@.len() == TRANSLATE_COUNT + 1,
        texts(v@)[0] == "— not a translate preset —"@,
        forall|i: int| 0 <= i < TRANSLATE_COUNT ==> #[trigger] texts(v@)[i + 1] == translate_lang(i),
{
    let mut v: Vec<String> = Vec::new();
    v.push(owned("— not a translate preset —"));
    let mut i: usize = 0;
    while i < TRANSLATE_COUNT
        invariant
            i <= TRANSLATE_COUNT,
            v@.len() == i + 1,
            v@[0]@ == "— not a translate preset —"@,
            forall|j: int| 0 <= j < i ==> #[trigger] v@[j + 1]@ == translate_lang(j),
        decreases TRANSLATE_COUNT - i,
    {
        v.push(owned(translate_lang_at(i)));
        i = i + 1;
    }
    v
}

/// The target language of a "Translate to" selection (0: not a translate preset).
pub fn translate_choice(selected: u32) -> (lang: Option<String>)
    ensures
        (selected == 0 || selected > TRANSLATE_COUNT) ==> lang is None,
        0 < selected <= TRANSLATE_COUNT ==> (lang matches Some(l) && l@ == translate_lang(
            selected - 1,
        )),
{
    if selected == 0 || selected as usize > TRANSLATE_COUNT {
        None
    } else {
        Some(owned(translate_lang_at(selected as usize - 1)))
    }
}

/// The "Translate to" position for a preset's target language (0 when it
/// has none or the language is not offered).
pub fn translate_position(lang: Option<&str>) -> (pos: u32)
    ensures
        pos <= TRANSLATE_COUNT,
        match lang {
            None => pos == 0,
            Some(l) => (pos > 0 ==> translate_lang(pos - 1) == l@ && forall|j: int|
                0 <= j < pos - 1 ==> translate_lang(j) != l@) && (pos == 0 ==> forall|j: int|
                0 <= j < TRANSLATE_COUNT ==> translate_lang(j) != l@),
        },
{
    match lang {
        None => 0,
        Some(l) => {
            let mut i: usize = 0;
            while i < TRANSLATE_COUNT
                invariant
                    lang == Some(l),
                    i <= TRANSLATE_COUNT,
                    forall|j: int| 0 <= j < i ==> translate_lang(j) != l@,
                decreases TRANSLATE_COUNT - i,
            {
                if same(translate_lang_at(i), l) {
                    return (i + 1) as u32;
                }
                i = i + 1;
            }
            0
        },
    }
}

/// A prompt preset. The temperature override is kept as the bit pattern of
/// the 32-bit float the settings store; nothing here interprets it.
pub struct LlmPreset {
    pub name: String,
    pub prompt: String,
    pub model: Option<String>,
    pub temperature_bits: Option<u32>,
    pub translate_to: Option<String>,
}

pub struct PresetView {
    pub name: Seq<char>,
    pub prompt: Seq<char>,
    pub model: Option<Seq<char>>,
    pub temperature_bits: Option<u32>,
    pub translate_to: Option<Seq<char>>,
}

pub open spec fn opt_text(o: Option<String>) -> Option<Seq<char>> {
    match o {
        Some(s) => Some(s@),
        None => None,
    }
}

impl View for LlmPreset {
    type V = PresetView;

    open spec fn view(&self) -> PresetView {
        PresetView {
            name: self.name@,
            prompt: self.prompt@,
            model: opt_text(self.model),
            temperature_bits: self.temperature_bits,
            translate_to: opt_text(self.translate_to),
        }
    }
}

fn copy_opt(o: &Option<String>) -> (r: Option<String>)
    ensures
        opt_text(r) == opt_text(*o),
{
    match o {
        Some(s) => Some(owned(s.as_str())),
        None => None,
    }
}

/// A field-for-field copy of a preset.
pub fn copy_preset(p: &LlmPreset) -> (r: LlmPreset)
    ensures
        r@ == p@,
{
    LlmPreset {
        name: owned(p.name.as_str()),
        prompt: owned(p.prompt.as_str()),
        model: copy_opt(&p.model),
        temperature_bits: p.temperature_bits,
        translate_to: copy_opt(&p.translate_to),
    }
}

/// The views of a preset list.
pub open spec fn preset_views(v: Seq<LlmPreset>) -> Seq<PresetView> {
    v.map_values(|p: LlmPreset| p@)
}

/// A fresh preset as "Add" creates it.
pub open spec fn new_preset_view() -> PresetView {
    PresetView {
        name: "New preset"@,
        prompt: Seq::empty(),
        model: None,
        temperature_bits: None,
        translate_to: None,
    }
}

/// The list after duplicating preset `i`: its copy, named "… (copy)", right after it.
pub open spec fn duplicated(ps: Seq<PresetView>, i: int) -> Seq<PresetView> {
    ps.insert(i + 1, PresetView { name: ps[i].name + " (copy)"@, ..ps[i] })
}

/// The active position after the list shrank: the same position, or the last one.
pub open spec fn clamp_index(i: int, len: int) -> int {
    if i < len - 1 {
        i
    } else {
        len - 1
    }
}

/// The LLM-related settings the page reads and writes.
pub struct LlmPage {
    pub enabled: bool,
    pub consent_given: bool,
    pub consent_endpoint: Option<String>,
    pub api_url: String,
    pub model: String,
    pub presets: Vec<LlmPreset>,
    pub active_preset: usize,
    pub auto_apply: bool,
    pub auto_summary: bool,
    pub selection_enabled: bool,
    pub selection_shortcut: String,
}

/// What switching the integration on leads to.
#[derive(Debug, Clone, Copy, PartialEq, Eq, Structural)]
pub enum EnableDecision {
    /// Consent for this endpoint was given before: enable at once.
    EnableNow,
    /// Ask for consent, naming the host.
    AskConsent,
    /// The endpoint is not allowed: turn the switch back off and warn.
    NotAllowed,
}

/// Whether changing the endpoint withdraws consent: the consent scope
/// changed while the integration was on or consent had been given.
pub open spec fn consent_lost(
    old_scope: Option<Seq<char>>,
    new_scope: Option<Seq<char>>,
    enabled: bool,
    consent_given: bool,
) -> bool {
    old_scope != new_scope && (enabled || consent_given)
}

fn opt_same(a: Option<&str>, b: &Option<String>) -> (r: bool)
    ensures
        r == (match a {
            Some(x) => Some(x@),
            None => None,
        } == opt_text(*b)),
{
    match (a, b) {
        (Some(x), Some(y)) => same(x, y.as_str()),
        (None, None) => true,
        _ => false,
    }
}

fn opt_same2(a: Option<&str>, b: Option<&str>) -> (r: bool)
    ensures
        r == (match a {
            Some(x) => Some(x@),
            None => None,
        } == match b {
            Some(x) => Some(x@),
            None => None,
        }),
{
    match (a, b) {
        (Some(x), Some(y)) => same(x, y),
        (None, None) => true,
        _ => false,
    }
}

pub open spec fn opt_str(o: Option<&str>) -> Option<Seq<char>> {
    match o {
        Some(x) => Some(x@),
        None => None,
    }
}

/// What applying the API key entry does with the system keyring (the key
/// never goes into the settings file): an empty entry deletes the stored
/// key, any other text is stored. Either way the model list is refreshed
/// afterwards.
pub fn api_key_action(text: &str) -> (a: TokenAction)
    ensures
        text@.len() == 0 ==> a == TokenAction::Delete,
        text@.len() != 0 ==> (a matches TokenAction::Store(t) && t@ == text@),
{
    token_action(text)
}

/// The automatic actions and the selection shortcut are the same on both
/// pages.
pub open spec fn switches_same(a: LlmPage, b: LlmPage) -> bool {
    &&& a.auto_apply == b.auto_apply
    &&& a.auto_summary == b.auto_summary
    &&& a.selection_enabled == b.selection_enabled
    &&& a.selection_shortcut@ == b.selection_shortcut@
}

/// Everything but the presets is the same on both pages: the switch, the
/// consent, the endpoint, the model, the automatic actions and the shortcut.
pub open spec fn settings_same(a: LlmPage, b: LlmPage) -> bool {
    &&& a.enabled == b.enabled
    &&& a.consent_given == b.consent_given
    &&& opt_text(a.consent_endpoint) == opt_text(b.consent_endpoint)
    &&& a.api_url@ == b.api_url@
    &&& a.model@ == b.model@
    &&& switches_same(a, b)
}

/// The presets and the active position are the same on both pages.
pub open spec fn presets_same(a: LlmPage, b: LlmPage) -> bool {
    a.presets_view() == b.presets_view() && a.active_preset == b.active_preset
}

impl LlmPage {
    pub open spec fn presets_view(self) -> Seq<PresetView> {
        preset_views(self.presets@)
    }

    /// Save a new endpoint URL. `old_scope` and `new_scope` are the consent
    /// scopes of the current and the new URL. When the scope changes while
    /// the integration is on or consent was given, consent is withdrawn and
    /// the integration switched off; returns whether that happened (the page
    /// then warns that consent is required again).
    pub fn save_endpoint(
        &mut self,
        url: &str,
        old_scope: Option<&str>,
        new_scope: Option<&str>,
    ) -> (invalidated: bool)
        ensures
            switches_same(*old(self), *final(self)),
            invalidated == consent_lost(
                opt_str(old_scope),
                opt_str(new_scope),
                old(self).enabled,
                old(self).consent_given,
            ),
            final(self).api_url@ == url@,
            invalidated ==> !final(self).enabled && !final(self).consent_given
                && final(self).consent_endpoint is None,
            !invalidated ==> final(self).enabled == old(self).enabled && final(self).consent_given
                == old(self).consent_given && opt_text(final(self).consent_endpoint) == opt_text(
                old(self).consent_endpoint,
            ),
            final(self).presets_view() == old(self).presets_view(),
            final(self).active_preset == old(self).active_preset,
            final(self).model@ == old(self).model@,
    {
        let invalidated = !opt_same2(old_scope, new_scope) && (self.enabled || self.consent_given);
        self.api_url = owned(url);
        if invalidated {
            self.enabled = false;
            self.consent_given = false;
            self.consent_endpoint = None;
        }
        invalidated
    }

    /// The integration switch was turned on; `scope` is the consent scope of
    /// the current URL (`None`: not an allowed endpoint).
    pub fn enable_requested(&self, scope: Option<&str>) -> (d: EnableDecision)
        ensures
            d == (if self.consent_given && opt_str(scope) == opt_text(self.consent_endpoint) {
                EnableDecision::EnableNow
            } else if scope is None {
                EnableDecision::NotAllowed
            } else {
                EnableDecision::AskConsent
            }),
    {
        if self.consent_given && opt_same(scope, &self.consent_endpoint) {
            EnableDecision::EnableNow
        } else if scope.is_none() {
            EnableDecision::NotAllowed
        } else {
            EnableDecision::AskConsent
        }
    }

    /// Turn the integration on with consent already on record; returns
    /// whether models are to be fetched (a URL is set).
    pub fn enable_now(&mut self) -> (refresh: bool)
        ensures
            final(self).model@ == old(self).model@,
            switches_same(*old(self), *final(self)),
            presets_same(*old(self), *final(self)),
            final(self).enabled,
            refresh == has_non_ws(old(self).api_url@),
            final(self).consent_given == old(self).consent_given,
            opt_text(final(self).consent_endpoint) == opt_text(old(self).consent_endpoint),
            final(self).api_url@ == old(self).api_url@,
    {
        self.enabled = true;
        !is_blank(self.api_url.as_str())
    }

    /// The consent dialog closed with `response`; "enable" records consent
    /// for `scope` and turns the integration on. Returns whether models are
    /// to be fetched.
    pub fn consent_answered(&mut self, response: &str, scope: &str) -> (refresh: bool)
        ensures
            final(self).model@ == old(self).model@,
            switches_same(*old(self), *final(self)),
            presets_same(*old(self), *final(self)),
            response@ == "enable"@ ==> final(self).enabled && final(self).consent_given && (
            final(self).consent_endpoint matches Some(e) && e@ == scope@) && refresh == has_non_ws(
                old(self).api_url@,
            ),
            response@ != "enable"@ ==> !refresh && final(self).enabled == old(self).enabled
                && final(self).consent_given == old(self).consent_given && opt_text(
                final(self).consent_endpoint,
            ) == opt_text(old(self).consent_endpoint),
            final(self).api_url@ == old(self).api_url@,
    {
        if same(response, "enable") {
            self.enabled = true;
            self.consent_given = true;
            self.consent_endpoint = Some(owned(scope));
            !is_blank(self.api_url.as_str())
        } else {
            false
        }
    }

    /// The integration switch was turned off.
    pub fn disable(&mut self)
        ensures
            final(self).api_url@ == old(self).api_url@,
            final(self).model@ == old(self).model@,
            switches_same(*old(self), *final(self)),
            presets_same(*old(self), *final(self)),
            !final(self).enabled,
            final(self).consent_given == old(self).consent_given,
            opt_text(final(self).consent_endpoint) == opt_text(old(self).consent_endpoint),
    {
        self.enabled = false;
    }

    /// A page before the settings are read: everything off and empty.
    pub fn new() -> (p: Self)
        ensures
            !p.enabled && !p.consent_given && p.consent_endpoint is None,
            p.api_url@.len() == 0 && p.model@.len() == 0,
            p.presets@.len() == 0 && p.active_preset == 0,
            !p.auto_apply && !p.auto_summary && !p.selection_enabled,
            p.selection_shortcut@.len() == 0,
    {
        LlmPage {
            enabled: false,
            consent_given: false,
            consent_endpoint: None,
            api_url: String::new(),
            model: String::new(),
            presets: Vec::new(),
            active_preset: 0,
            auto_apply: false,
            auto_summary: false,
            selection_enabled: false,
            selection_shortcut: String::new(),
        }
    }

    /// What the page shows once the saved settings are in place: the provider
    /// whose URL is the saved one ("Custom" otherwise), the active preset
    /// position, and whether the server's models are discovered at once (the
    /// integration is on and a URL is set).
    pub fn load_from_config(&self) -> (r: (usize, usize, bool))
        ensures
            provider_index_of(self.api_url@, r.0 as int),
            r.1 == (if self.presets@.len() == 0 {
                0
            } else {
                clamp_index(self.active_preset as int, self.presets@.len() as int)
            }),
            r.2 == (self.enabled && has_non_ws(self.api_url@)),
    {
        let provider = provider_index(self.api_url.as_str());
        let active = self.clamped_active();
        let discover = self.enabled && !is_blank(self.api_url.as_str());
        (provider, active, discover)
    }

    /// The active preset position shown when the page opens: the saved one,
    /// or the last preset when it is past the end.
    pub fn clamped_active(&self) -> (i: usize)
        ensures
            i == (if self.presets@.len() == 0 {
                0
            } else {
                clamp_index(self.active_preset as int, self.presets@.len() as int)
            }),
    {
        let last = if self.presets.len() == 0 {
            0
        } else {
            self.presets.len() - 1
        };
        if self.active_preset < last {
            self.active_preset
        } else {
            last
        }
    }

    /// Add an empty preset named "New preset" and make it active.
    pub fn add_preset(&mut self) -> (idx: usize)
        requires
            old(self).presets@.len() < usize::MAX,
        ensures
            settings_same(*old(self), *final(self)),
            final(self).presets_view() == old(self).presets_view().push(new_preset_view()),
            idx == old(self).presets@.len(),
            final(self).active_preset == idx,
    {
        self.presets.push(
            LlmPreset {
                name: owned("New preset"),
                prompt: String::new(),
                model: None,
                temperature_bits: None,
                translate_to: None,
            },
        );
        let idx = self.presets.len() - 1;
        self.active_preset = idx;
        assert(preset_views(self.presets@) =~= preset_views(old(self).presets@).push(
            new_preset_view(),
        ));
        idx
    }

    /// Duplicate preset `idx` right after itself (named "… (copy)") and make
    /// the copy active; an index past the end does nothing.
    pub fn duplicate_preset(&mut self, idx: usize) -> (r: Option<usize>)
        requires
            old(self).presets@.len() < usize::MAX,
        ensures
            settings_same(*old(self), *final(self)),
            idx < old(self).presets@.len() ==> r == Some((idx + 1) as usize)
                && final(self).presets_view() == duplicated(old(self).presets_view(), idx as int)
                && final(self).active_preset == idx + 1,
            idx >= old(self).presets@.len() ==> r is None && final(self).presets_view()
                == old(self).presets_view() && final(self).active_preset == old(self).active_preset,
    {
        if idx >= self.presets.len() {
            return None;
        }
        let mut copy = copy_preset(&self.presets[idx]);
        push_str(&mut copy.name, " (copy)");
        let ghost before = preset_views(self.presets@);
        self.presets.insert(idx + 1, copy);
        self.active_preset = idx + 1;
        assert(preset_views(self.presets@) =~= duplicated(before, idx as int));
        Some(idx + 1)
    }

    /// Delete preset `idx` and activate the one now at its place (or the
    /// last); the last remaining preset is never deleted.
    pub fn delete_preset(&mut self, idx: usize) -> (r: Option<usize>)
        requires
            old(self).presets@.len() > 1 ==> idx < old(self).presets@.len(),
        ensures
            settings_same(*old(self), *final(self)),
            old(self).presets@.len() <= 1 ==> r is None && final(self).presets_view()
                == old(self).presets_view() && final(self).active_preset == old(self).active_preset,
            old(self).presets@.len() > 1 ==> ({
                let n = clamp_index(idx as int, old(self).presets@.len() - 1);
                &&& r == Some(n as usize)
                &&& final(self).presets_view() == old(self).presets_view().remove(idx as int)
                &&& final(self).active_preset == n
            }),
    {
        if self.presets.len() <= 1 {
            return None;
        }
        let ghost before = preset_views(self.presets@);
        self.presets.remove(idx);
        let last = self.presets.len() - 1;
        let n = if idx < last {
            idx
        } else {
            last
        };
        self.active_preset = n;
        assert(preset_views(self.presets@) =~= before.remove(idx as int));
        Some(n)
    }

    /// Make preset `idx` the active one.
    pub fn select_preset(&mut self, idx: usize)
        ensures
            settings_same(*old(self), *final(self)),
            final(self).active_preset == idx,
            final(self).presets_view() == old(self).presets_view(),
    {
        self.active_preset = idx;
    }

    /// Rename the active preset; a blank name is ignored. Returns whether
    /// the name changed.
    pub fn rename_active(&mut self, name: &str) -> (changed: bool)
        ensures
            settings_same(*old(self), *final(self)),
            changed == (has_non_ws(name@) && old(self).active_preset < old(self).presets@.len()),
            changed ==> final(self).presets_view() == old(self).presets_view().update(
                old(self).active_preset as int,
                PresetView { name: name@, ..old(self).presets_view()[old(self).active_preset as int] },
            ),
            !changed ==> final(self).presets_view() == old(self).presets_view(),
            final(self).active_preset == old(self).active_preset,
    {
        if is_blank(name) || self.active_preset >= self.presets.len() {
            return false;
        }
        let i = self.active_preset;
        let mut p = copy_preset(&self.presets[i]);
        p.name = owned(name);
        let ghost before = preset_views(self.presets@);
        self.presets.set(i, p);
        assert(preset_views(self.presets@) =~= before.update(
            i as int,
            PresetView { name: name@, ..before[i as int] },
        ));
        true
    }

    /// Replace the active preset with `p` (when there is an active preset).
    fn replace_active(&mut self, p: LlmPreset)
        ensures
            settings_same(*old(self), *final(self)),
            old(self).active_preset < old(self).presets@.len() ==> final(self).presets_view()
                == old(self).presets_view().update(old(self).active_preset as int, p@),
            old(self).active_preset >= old(self).presets@.len() ==> final(self).presets_view()
                == old(self).presets_view(),
            final(self).active_preset == old(self).active_preset,
    {
        if self.active_preset < self.presets.len() {
            let ghost before = preset_views(self.presets@);
            let i = self.active_preset;
            self.presets.set(i, p);
            assert(preset_views(self.presets@) =~= before.update(i as int, p@));
        }
    }

    /// Set the active preset's prompt.
    pub fn set_active_prompt(&mut self, prompt: &str)
        ensures
            settings_same(*old(self), *final(self)),
            old(self).active_preset < old(self).presets@.len() ==> final(self).presets_view()
                == old(self).presets_view().update(
                old(self).active_preset as int,
                PresetView { prompt: prompt@, ..old(self).presets_view()[old(self).active_preset as int] },
            ),
            old(self).active_preset >= old(self).presets@.len() ==> final(self).presets_view()
                == old(self).presets_view(),
            final(self).active_preset == old(self).active_preset,
    {
        if self.active_preset < self.presets.len() {
            let mut p = copy_preset(&self.presets[self.active_preset]);
            p.prompt = owned(prompt);
            self.replace_active(p);
        }
    }

    /// Set the active preset's model override (`None`: the connection model).
    pub fn set_active_model(&mut self, model: Option<&str>)
        ensures
            settings_same(*old(self), *final(self)),
            old(self).active_preset < old(self).presets@.len() ==> final(self).presets_view()
                == old(self).presets_view().update(
                old(self).active_preset as int,
                PresetView {
                    model: opt_str(model),
                    ..old(self).presets_view()[old(self).active_preset as int]
                },
            ),
            old(self).active_preset >= old(self).presets@.len() ==> final(self).presets_view()
                == old(self).presets_view(),
            final(self).active_preset == old(self).active_preset,
    {
        if self.active_preset < self.presets.len() {
            let mut p = copy_preset(&self.presets[self.active_preset]);
            p.model = match model {
                Some(m) => Some(owned(m)),
                None => None,
            };
            self.replace_active(p);
        }
    }

    /// Set the active preset's target language (`None`: not a translate preset).
    pub fn set_active_translate(&mut self, lang: Option<&str>)
        ensures
            settings_same(*old(self), *final(self)),
            old(self).active_preset < old(self).presets@.len() ==> final(self).presets_view()
                == old(self).presets_view().update(
                old(self).active_preset as int,
                PresetView {
                    translate_to: opt_str(lang),
                    ..old(self).presets_view()[old(self).active_preset as int]
                },
            ),
            old(self).active_preset >= old(self).presets@.len() ==> final(self).presets_view()
                == old(self).presets_view(),
            final(self).active_preset == old(self).active_preset,
    {
        if self.active_preset < self.presets.len() {
            let mut p = copy_preset(&self.presets[self.active_preset]);
            p.translate_to = match lang {
                Some(m) => Some(owned(m)),
                None => None,
            };
            self.replace_active(p);
        }
    }

    /// Set the active preset's temperature override (`None`: no override).
    pub fn set_active_temperature(&mut self, bits: Option<u32>)
        ensures
            settings_same(*old(self), *final(self)),
            old(self).active_preset < old(self).presets@.len() ==> final(self).presets_view()
                == old(self).presets_view().update(
                old(self).active_preset as int,
                PresetView {
                    temperature_bits: bits,
                    ..old(self).presets_view()[old(self).active_preset as int]
                },
            ),
            old(self).active_preset >= old(self).presets@.len() ==> final(self).presets_view()
                == old(self).presets_view(),
            final(self).active_preset == old(self).active_preset,
    {
        if self.active_preset < self.presets.len() {
            let mut p = copy_preset(&self.presets[self.active_preset]);
            p.temperature_bits = bits;
            self.replace_active(p);
        }
    }

    /// Save the transform-selection shortcut; a blank entry is ignored.
    /// Returns whether it was saved.
    pub fn set_selection_shortcut(&mut self, text: &str) -> (saved: bool)
        ensures
            presets_same(*old(self), *final(self)),
            final(self).enabled == old(self).enabled,
            final(self).consent_given == old(self).consent_given,
            opt_text(final(self).consent_endpoint) == opt_text(old(self).consent_endpoint),
            final(self).api_url@ == old(self).api_url@,
            final(self).model@ == old(self).model@,
            final(self).auto_apply == old(self).auto_apply,
            final(self).auto_summary == old(self).auto_summary,
            final(self).selection_enabled == old(self).selection_enabled,
            saved == has_non_ws(text@),
            saved ==> final(self).selection_shortcut@ == text@,
            !saved ==> final(self).selection_shortcut@ == old(self).selection_shortcut@,
    {
        if is_blank(text) {
            return false;
        }
        self.selection_shortcut = owned(text);
        true
    }

    /// The preset names, in order, for the preset selector.
    pub fn preset_names(&self) -> (v: Vec<String>)
        ensures
            v@.len() == self.presets@.len(),
            forall|i: int| 0 <= i < v@.len() ==> #[trigger] v@[i]@ == self.presets@[i].name@,
    {
        let mut v: Vec<String> = Vec::new();
        let mut i: usize = 0;
        while i < self.presets.len()
            invariant
                i <= self.presets@.len(),
                v@.len() == i,
                forall|j: int| 0 <= j < i ==> #[trigger] v@[j]@ == self.presets@[j].name@,
            decreases self.presets@.len() - i,
        {
            v.push(owned(self.presets[i].name.as_str()));
            i = i + 1;
        }
        v
    }
}

/// Duplicating a preset and deleting the copy gives the original list back,
/// with the original preset active again.
pub proof fn law_duplicate_then_delete(ps: Seq<PresetView>, i: int)
    requires
        0 <= i < ps.len(),
    ensures
        duplicated(ps, i).remove(i + 1) == ps,
        clamp_index(i + 1, duplicated(ps, i).len() - 1) == (if i + 1 < ps.len() { i + 1 } else { i }),
{
    assert(duplicated(ps, i).remove(i + 1) =~= ps);
}

/// Deleting never leaves the list empty, and the active position it picks
/// is always inside the shortened list.
pub proof fn law_delete_keeps_valid_active(len: int, i: int)
    requires
        len > 1,
        0 <= i < len,
    ensures
        0 <= clamp_index(i, len - 1) < len - 1,
        len - 1 >= 1,
{
}

/// The entries of the connection's model selector and the position to
/// select: the discovered models, with the saved model put first when it
/// is set and not among them; the saved model's first position, if any.
pub open spec fn model_entries(models: Seq<Seq<char>>, saved: Seq<char>) -> Seq<Seq<char>> {
    if saved.len() > 0 && !models.contains(saved) {
        seq![saved] + models
    } else {
        models
    }
}

pub open spec fn first_position(list: Seq<Seq<char>>, x: Seq<char>, r: int) -> bool {
    0 <= r < list.len() && list[r] == x && forall|j: int| 0 <= j < r ==> list[j] != x
}

fn position_of(list: &Vec<String>, x: &str) -> (r: Option<usize>)
    ensures
        match r {
            Some(i) => first_position(texts(list@), x@, i as int),
            None => !texts(list@).contains(x@),
        },
{
    let mut i: usize = 0;
    while i < list.len()
        invariant
            i <= list.len(),
            forall|j: int| 0 <= j < i ==> texts(list@)[j] != x@,
        decreases list.len() - i,
    {
        if same(list[i].as_str(), x) {
            return Some(i);
        }
        i = i + 1;
    }
    proof {
        if texts(list@).contains(x@) {
            let k = choose|k: int| 0 <= k < texts(list@).len() && texts(list@)[k] == x@;
            assert(texts(list@)[k] != x@);
        }
    }
    None
}

/// Build the connection model selector from discovered models and the
/// saved model; returns the entries and the position to select (none when
/// no saved model is set and it is not listed).
pub fn model_choices(models: &[String], saved: &str) -> (r: (Vec<String>, Option<usize>))
    ensures
        texts(r.0@) == model_entries(texts(models@), saved@),
        match r.1 {
            Some(i) => first_position(texts(r.0@), saved@, i as int),
            None => !texts(r.0@).contains(saved@),
        },
{
    let mut list: Vec<String> = crate::transcript::copy_strings(models);
    let found = position_of(&list, saved);
    if saved.unicode_len() != 0 && found.is_none() {
        let ghost before = texts(list@);
        list.insert(0, owned(saved));
        assert(texts(list@) =~= seq![saved@] + before);
        assert(first_position(texts(list@), saved@, 0));
        return (list, Some(0));
    }
    (list, found)
}

/// The per-preset model selector: "Default" followed by the discovered models.
pub fn preset_model_choices(models: &[String]) -> (v: Vec<String>)
    ensures
        texts(v@) == seq!["Default"@] + texts(models@),
{
    let mut v: Vec<String> = Vec::new();
    v.push(owned("Default"));
    let rest = crate::transcript::copy_strings(models);
    let ghost head = texts(v@);
    let mut i: usize = 0;
    while i < rest.len()
        invariant
            i <= rest.len(),
            texts(rest@) == texts(models@),
            head == seq!["Default"@],
            texts(v@) == head + texts(rest@).take(i as int),
        decreases rest.len() - i,
    {
        let ghost prev = v@;
        v.push(owned(rest[i].as_str()));
        assert(texts(v@) =~= texts(prev).push(texts(rest@)[i as int]));
        assert(texts(rest@).take(i + 1) =~= texts(rest@).take(i as int).push(texts(rest@)[i as int]));
        i = i + 1;
    }
    assert(texts(rest@).take(rest.len() as int) =~= texts(rest@));
    v
}

/// Where the per-preset model selector points for a preset's model: its
/// first position in the list, or "Default" (position 0).
pub fn preset_model_position(list: &Vec<String>, model: Option<&str>) -> (pos: usize)
    ensures
        match model {
            None => pos == 0,
            Some(m) => if texts(list@).contains(m@) {
                first_position(texts(list@), m@, pos as int)
            } else {
                pos == 0
            },
        },
{
    match model {
        None => 0,
        Some(m) => match position_of(list, m) {
            Some(i) => i,
            None => 0,
        },
    }
}

/// The status line after asking the server for its models.
pub open spec fn models_status_text(result: Result<Seq<Seq<char>>, Seq<char>>) -> Seq<char> {
    match result {
        Ok(m) => if m.len() > 0 {
            decimal(m.len()) + " models"@
        } else {
            "No models — type one manually"@
        },
        Err(e) => e,
    }
}

/// The status line for a model-discovery result.
pub fn models_status(result: &Result<Vec<String>, String>) -> (s: String)
    ensures
        s@ == models_status_text(
            match result {
                Ok(m) => Ok(texts(m@)),
                Err(e) => Err(e@),
            },
        ),
{
    match result {
        Ok(m) => {
            if m.len() > 0 {
                let mut s = String::new();
                push_decimal(&mut s, m.len() as u64);
                push_str(&mut s, " models");
                s
            } else {
                owned("No models — type one manually")
            }
        },
        Err(e) => owned(e.as_str()),
    }
}

} // verus!
