//! Shared model for a completed transcription result and its AI-derived variants.
//!
//! The raw ASR text is kept immutable and each AI transformation (a transform
//! chip, "Improve with AI", or a voice edit) is stacked as a labelled variant,
//! so the user can always toggle back to the original: nothing is ever
//! destroyed. Word/WPM stats are computed once from the raw text and stay
//! stable regardless of which variant is shown.
//!
//! Durations are carried in whole milliseconds.

use vstd::prelude::*;
pub use crate::text::word_count;
use crate::text::{word_count_of, lemma_word_count_bound, owned};

verus! {

/// Word count + words-per-minute for a result.
#[derive(Debug, Clone, Copy, Default)]
pub struct ResultStats {
    pub words: usize,
    pub duration_ms: u64,
    pub wpm: Option<u32>,
}

/// `a / b` rounded to the nearest integer, halves rounded up (`b > 0`).
pub open spec fn round_div(a: nat, b: nat) -> nat {
    (2 * a + b) / (2 * b)
}

/// Words per minute: `None` when the clip is shorter than one second or has
/// fewer than three words; otherwise `words * 60 / seconds` rounded to the
/// nearest integer and saturated at `u32::MAX`.
pub open spec fn wpm_of(words: nat, duration_ms: nat) -> Option<u32> {
    if duration_ms < 1000 || words < 3 {
        None
    } else {
        let r = round_div(words * 60000, duration_ms);
        Some(if r > u32::MAX { u32::MAX } else { r as u32 })
    }
}

/// The stats of a text spoken over `duration_ms`.
pub open spec fn stats_for(text: Seq<char>, duration_ms: u64) -> ResultStats {
    ResultStats {
        words: word_count_of(text) as usize,
        duration_ms,
        wpm: wpm_of(word_count_of(text), duration_ms as nat),
    }
}

/// Words per minute from a duration in milliseconds given as a wide integer.
pub fn wpm_from_ms(words: usize, duration_ms: u128) -> (r: Option<u32>)
    requires
        duration_ms <= 0xFFFF_FFFF_FFFF_FFFF_FFFF,
    ensures
        r == wpm_of(words as nat, duration_ms as nat),
{
    if duration_ms < 1000 || words < 3 {
        return None;
    }
    let num: u128 = (words as u128) * 120000 + duration_ms;
    let den: u128 = 2 * duration_ms;
    let q: u128 = num / den;
    assert(num == 2 * (words as nat * 60000) + duration_ms as nat);
    if q > 0xFFFF_FFFF {
        Some(0xFFFF_FFFFu32)
    } else {
        Some(q as u32)
    }
}

/// Words per minute, or `None` when the sample is too short to be meaningful
/// (sub-second clips or fewer than three words).
pub fn wpm(words: usize, duration_ms: u64) -> (r: Option<u32>)
    ensures
        r == wpm_of(words as nat, duration_ms as nat),
{
    wpm_from_ms(words, duration_ms as u128)
}

/// Words per minute for a duration in whole seconds.
pub fn wpm_for_secs(words: usize, duration_secs: u64) -> (r: Option<u32>)
    ensures
        r == wpm_of(words as nat, duration_secs as nat * 1000),
{
    wpm_from_ms(words, (duration_secs as u128) * 1000)
}

impl ResultStats {
    /// Count the words of `text` and derive its words-per-minute.
    pub fn compute(text: &str, duration_ms: u64) -> (s: Self)
        ensures
            s == stats_for(text@, duration_ms),
    {
        let words = word_count(text);
        ResultStats { words, duration_ms, wpm: wpm(words, duration_ms) }
    }
}

/// One AI-produced version of the transcript (a chip preset, "Improved", a
/// "Voice edit"...). `label` is shown in the variant selector.
#[derive(Debug, Clone)]
pub struct TextVariant {
    pub label: String,
    pub text: String,
}

/// The current result: the immutable raw transcript plus any AI variants.
#[derive(Debug, Clone)]
pub struct ResultState {
    /// Sanitized + mode-formatted text from ASR: never mutated after creation.
    pub raw: String,
    /// Each AI transformation, in the order produced.
    pub variants: Vec<TextVariant>,
    /// Which text is shown: 0 = raw, 1.. = `variants[active - 1]`.
    pub active: usize,
    /// Stats computed from the raw text (stable regardless of the active variant).
    pub stats: ResultStats,
    /// Detected/selected language, for display.
    pub language: Option<String>,
    /// `(start_ms, end_ms, text)` segments, for SRT export and chapter anchoring.
    pub segments: Vec<(i64, i64, String)>,
}

/// Abstract value of a `ResultState`.
pub struct ResultView {
    pub raw: Seq<char>,
    /// `(label, text)` of each variant, oldest first.
    pub variants: Seq<(Seq<char>, Seq<char>)>,
    pub active: nat,
    pub stats: ResultStats,
    pub language: Option<Seq<char>>,
    pub segments: Seq<(i64, i64, Seq<char>)>,
}

pub open spec fn opt_view(o: Option<String>) -> Option<Seq<char>> {
    match o {
        Some(s) => Some(s@),
        None => None,
    }
}

impl View for ResultState {
    type V = ResultView;

    open spec fn view(&self) -> ResultView {
        ResultView {
            raw: self.raw@,
            variants: self.variants@.map_values(|v: TextVariant| (v.label@, v.text@)),
            active: self.active as nat,
            stats: self.stats,
            language: opt_view(self.language),
            segments: self.segments@.map_values(|s: (i64, i64, String)| (s.0, s.1, s.2@)),
        }
    }
}

impl ResultView {
    /// The active index names raw or an existing variant.
    pub open spec fn wf(self) -> bool {
        self.active <= self.variants.len()
    }

    /// The text selected for display / copy / paste (raw when the active
    /// index names no variant).
    pub open spec fn active_text(self) -> Seq<char> {
        if self.active == 0 || self.active > self.variants.len() {
            self.raw
        } else {
            self.variants[self.active - 1].1
        }
    }

    /// The text persisted as "polished": the active variant, or the latest
    /// variant while raw is shown.
    pub open spec fn polished(self) -> Option<Seq<char>> {
        if self.active == 0 {
            if self.variants.len() == 0 {
                None
            } else {
                Some(self.variants.last().1)
            }
        } else if self.active <= self.variants.len() {
            Some(self.variants[self.active - 1].1)
        } else {
            None
        }
    }

    /// The overall index of the newest variant, if there is one.
    pub open spec fn latest_variant_index(self) -> Option<nat> {
        if self.variants.len() == 0 {
            None
        } else {
            Some(self.variants.len())
        }
    }

    /// The result after a new variant is appended and made active.
    pub open spec fn pushed(self, label: Seq<char>, text: Seq<char>) -> ResultView {
        ResultView {
            variants: self.variants.push((label, text)),
            active: self.variants.len() + 1,
            ..self
        }
    }

    /// The result after selecting `index`, clamped to `0..=variants.len()`.
    pub open spec fn activated(self, index: nat) -> ResultView {
        ResultView {
            active: if index <= self.variants.len() {
                index
            } else {
                self.variants.len()
            },
            ..self
        }
    }

    /// `[raw_label, <variant labels>...]`.
    pub open spec fn selector_labels(self, raw_label: Seq<char>) -> Seq<Seq<char>> {
        seq![raw_label] + self.variants.map_values(|v: (Seq<char>, Seq<char>)| v.0)
    }
}

/// A freshly built result: the raw text, no variants, raw shown.
pub open spec fn fresh_result(
    raw: Seq<char>,
    duration_ms: u64,
    language: Option<Seq<char>>,
    segments: Seq<(i64, i64, Seq<char>)>,
) -> ResultView {
    ResultView {
        raw,
        variants: Seq::empty(),
        active: 0,
        stats: stats_for(raw, duration_ms),
        language,
        segments,
    }
}

impl ResultState {
    /// Build a fresh result from raw ASR text (active = raw, no variants yet).
    pub fn new(
        raw: String,
        duration_ms: u64,
        language: Option<String>,
        segments: Vec<(i64, i64, String)>,
    ) -> (r: Self)
        ensures
            r@ == fresh_result(
                raw@,
                duration_ms,
                opt_view(language),
                segments@.map_values(|s: (i64, i64, String)| (s.0, s.1, s.2@)),
            ),
            r@.wf(),
    {
        let stats = ResultStats::compute(raw.as_str(), duration_ms);
        let r = ResultState { raw, variants: Vec::new(), active: 0, stats, language, segments };
        assert(r@.variants == Seq::<(Seq<char>, Seq<char>)>::empty());
        r
    }

    /// Plain result with no timing/language metadata (e.g. for previews).
    pub fn from_text(raw: String, duration_ms: u64) -> (r: Self)
        ensures
            r@ == fresh_result(raw@, duration_ms, None, Seq::empty()),
            r@.wf(),
    {
        let r = Self::new(raw, duration_ms, None, Vec::new());
        assert(r@.segments == Seq::<(i64, i64, Seq<char>)>::empty());
        r
    }

    /// The text currently selected for display / copy / paste.
    pub fn active_text(&self) -> (t: &str)
        ensures
            t@ == self@.active_text(),
    {
        if self.active == 0 || self.active > self.variants.len() {
            self.raw.as_str()
        } else {
            self.variants[self.active - 1].text.as_str()
        }
    }

    /// Append a new variant and make it active; returns its overall active index.
    pub fn push_variant(&mut self, label: &str, text: &str) -> (idx: usize)
        ensures
            final(self)@ == old(self)@.pushed(label@, text@),
            idx == old(self)@.variants.len() + 1,
            idx == final(self).active,
    {
        let ghost before = self.variants@;
        self.variants.push(TextVariant { label: owned(label), text: owned(text) });
        self.active = self.variants.len();
        assert(self.variants@.map_values(|v: TextVariant| (v.label@, v.text@)) == before.map_values(
            |v: TextVariant| (v.label@, v.text@),
        ).push((label@, text@)));
        self.active
    }

    /// Set the active index, clamped to the valid range (`0..=variants.len()`).
    pub fn set_active(&mut self, index: usize)
        ensures
            final(self)@ == old(self)@.activated(index as nat),
    {
        self.active = if index <= self.variants.len() {
            index
        } else {
            self.variants.len()
        };
    }

    /// Whether the raw text is currently shown.
    pub fn is_raw_active(&self) -> (b: bool)
        ensures
            b == (self.active == 0),
    {
        self.active == 0
    }

    /// The most recent non-raw variant's overall index, if any (for a 2-state toggle).
    pub fn latest_variant_index(&self) -> (r: Option<usize>)
        ensures
            r matches Some(i) ==> self@.latest_variant_index() == Some(i as nat),
            r is None <==> self@.latest_variant_index() is None,
    {
        if self.variants.len() == 0 {
            None
        } else {
            Some(self.variants.len())
        }
    }

    /// The active non-raw variant's text, or the latest variant's text while raw
    /// is shown (history keeps the polished version the user generated); `None`
    /// when there are no variants.
    pub fn polished_text(&self) -> (r: Option<&str>)
        ensures
            r matches Some(t) ==> self@.polished() == Some(t@),
            r is None <==> self@.polished() is None,
    {
        let n = self.variants.len();
        if self.active == 0 {
            if n == 0 {
                None
            } else {
                Some(self.variants[n - 1].text.as_str())
            }
        } else if self.active <= n {
            Some(self.variants[self.active - 1].text.as_str())
        } else {
            None
        }
    }

    /// Labels for a variant selector: `[raw_label, <variant labels>...]`. The
    /// caller supplies the translated "Raw" label.
    pub fn selector_labels(&self, raw_label: &str) -> (labels: Vec<String>)
        ensures
            labels@.map_values(|s: String| s@) == self@.selector_labels(raw_label@),
    {
        let mut labels: Vec<String> = Vec::new();
        labels.push(owned(raw_label));
        let mut i: usize = 0;
        while i < self.variants.len()
            invariant
                i <= self.variants.len(),
                labels.len() == i + 1,
                labels@.map_values(|s: String| s@) == seq![raw_label@] + self.variants@.take(
                    i as int,
                ).map_values(|v: TextVariant| v.label@),
            decreases self.variants.len() - i,
        {
            let l = self.variants[i].label.clone();
            let ghost before = labels@;
            labels.push(l);
            assert(labels@.map_values(|s: String| s@) == before.map_values(|s: String| s@).push(
                self.variants@[i as int].label@,
            ));
            assert(self.variants@.take(i + 1) == self.variants@.take(i as int).push(
                self.variants@[i as int],
            ));
            assert(self.variants@.take(i + 1).map_values(|v: TextVariant| v.label@)
                == self.variants@.take(i as int).map_values(|v: TextVariant| v.label@).push(
                self.variants@[i as int].label@,
            ));
            i = i + 1;
        }
        assert(self.variants@.take(i as int) == self.variants@);
        assert(self@.variants.map_values(|v: (Seq<char>, Seq<char>)| v.0)
            == self.variants@.map_values(|v: TextVariant| v.label@));
        labels
    }
}

// ---------------------------------------------------------------------------
// Laws
// ---------------------------------------------------------------------------

/// A freshly built result shows its raw text and is well formed.
pub proof fn law_fresh_shows_raw(
    raw: Seq<char>,
    duration_ms: u64,
    language: Option<Seq<char>>,
    segments: Seq<(i64, i64, Seq<char>)>,
)
    ensures
        fresh_result(raw, duration_ms, language, segments).wf(),
        fresh_result(raw, duration_ms, language, segments).active_text() == raw,
        fresh_result(raw, duration_ms, language, segments).polished() is None,
{
}

/// Pushing a variant shows it, keeps every earlier variant, and never
/// touches the raw text or the stats.
pub proof fn law_push_keeps_history(v: ResultView, label: Seq<char>, text: Seq<char>)
    requires
        v.wf(),
    ensures
        v.pushed(label, text).wf(),
        v.pushed(label, text).active_text() == text,
        v.pushed(label, text).polished() == Some(text),
        v.pushed(label, text).variants.take(v.variants.len() as int) == v.variants,
        v.pushed(label, text).raw == v.raw,
        v.pushed(label, text).stats == v.stats,
{
    assert(v.pushed(label, text).variants.take(v.variants.len() as int) == v.variants);
}

/// The raw text can always be brought back: selecting index 0 shows it,
/// whatever variants were produced, and the latest variant stays the
/// polished one.
pub proof fn law_raw_recoverable(v: ResultView, label: Seq<char>, text: Seq<char>)
    ensures
        v.activated(0).active_text() == v.raw,
        v.pushed(label, text).activated(0).active_text() == v.raw,
        v.pushed(label, text).activated(0).polished() == Some(text),
{
}

/// Selecting an index always yields a well-formed state; an in-range index is
/// taken as is, a larger one selects the newest variant, and selecting twice
/// is the same as selecting once.
pub proof fn law_activate_clamps(v: ResultView, index: nat)
    ensures
        v.activated(index).wf(),
        index <= v.variants.len() ==> v.activated(index).active == index,
        index > v.variants.len() ==> v.activated(index).active == v.variants.len(),
        v.activated(index).activated(index) == v.activated(index),
        v.activated(index).raw == v.raw,
        v.activated(index).variants == v.variants,
        v.activated(index).stats == v.stats,
        1 <= index <= v.variants.len() ==> v.activated(index).active_text()
            == v.variants[index - 1].1,
{
}

/// The selector always offers one entry per variant plus the raw entry first.
pub proof fn law_selector_labels(v: ResultView, raw_label: Seq<char>)
    ensures
        v.selector_labels(raw_label).len() == v.variants.len() + 1,
        v.selector_labels(raw_label)[0] == raw_label,
        forall|i: int|
            0 <= i < v.variants.len() ==> #[trigger] v.selector_labels(raw_label)[i + 1]
                == v.variants[i].0,
{
}

/// Stats never report more words than characters, and a word rate only
/// for clips of at least one second with three or more words.
pub proof fn law_stats_bounds(text: Seq<char>, duration_ms: u64)
    ensures
        word_count_of(text) <= text.len(),
        wpm_of(word_count_of(text), duration_ms as nat) is Some ==> duration_ms >= 1000
            && word_count_of(text) >= 3,
{
    lemma_word_count_bound(text);
}

} // verus!
