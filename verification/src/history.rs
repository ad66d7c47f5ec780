//! Transcription history: entries, their search text, the labels shown for
//! them, and the in-memory store behind the history page (rows, search cache,
//! deferred saves and cancellation of a stale initial load).
//!
//! Reading and writing the history file happen outside the library; the
//! store says when a snapshot must be written.

use vstd::prelude::*;
use crate::text::{lowercase_of, push_str, push_char, push_decimal, decimal, same, owned, to_lowercase, contains, contains_seq, occurs_at};
use crate::result_state::{wpm_of, wpm_for_secs, opt_view};
use crate::system::{new_entry_id, local_minute_timestamp, is_hyphenated_uuid, is_minute_stamp, unix_timestamp_now};
use vstd::utf8::{decode_utf8, encode_utf8, is_char_boundary};
use vstd::string::StringSliceAdditionalSpecFns;

verus! {

/// A single history entry.
#[derive(Debug, Clone, Default)]
pub struct HistoryEntry {
    pub id: String,
    pub title: String,
    pub text: String,
    pub language: String,
    pub duration_secs: u64,
    pub timestamp: String,
    pub model: String,
    /// Word count of the raw transcript (for the session-stats display).
    pub word_count: Option<u32>,
    /// The AI-polished version, when the user produced one.
    pub polished_text: Option<String>,
    /// LLM summary of long file transcripts, when generated.
    pub summary: Option<String>,
}

/// Abstract value of a `HistoryEntry`.
pub struct EntryView {
    pub id: Seq<char>,
    pub title: Seq<char>,
    pub text: Seq<char>,
    pub language: Seq<char>,
    pub duration_secs: u64,
    pub timestamp: Seq<char>,
    pub model: Seq<char>,
    pub word_count: Option<u32>,
    pub polished_text: Option<Seq<char>>,
    pub summary: Option<Seq<char>>,
}

impl View for HistoryEntry {
    type V = EntryView;

    open spec fn view(&self) -> EntryView {
        EntryView {
            id: self.id@,
            title: self.title@,
            text: self.text@,
            language: self.language@,
            duration_secs: self.duration_secs,
            timestamp: self.timestamp@,
            model: self.model@,
            word_count: self.word_count,
            polished_text: opt_view(self.polished_text),
            summary: opt_view(self.summary),
        }
    }
}

pub open spec fn or_empty(o: Option<Seq<char>>) -> Seq<char> {
    match o {
        Some(s) => s,
        None => Seq::empty(),
    }
}

/// Title, text, polished text and summary, one per line.
pub open spec fn blob_source(e: EntryView) -> Seq<char> {
    e.title + seq!['\n'] + e.text + seq!['\n'] + or_empty(e.polished_text) + seq!['\n']
        + or_empty(e.summary)
}

/// The lowercase text the search box matches against.
pub open spec fn search_blob(e: EntryView) -> Seq<char> {
    lowercase_of(blob_source(e))
}

fn push_opt(s: &mut String, o: &Option<String>)
    ensures
        final(s)@ == old(s)@ + or_empty(opt_view(*o)),
{
    match o {
        Some(t) => push_str(s, t.as_str()),
        None => {
            assert(old(s)@ + Seq::<char>::empty() == old(s)@);
        },
    }
}

/// Decimal rendering of a signed integer, with a leading '-' when negative.
pub open spec fn signed_decimal(i: int) -> Seq<char> {
    if i < 0 {
        seq!['-'] + decimal((-i) as nat)
    } else {
        decimal(i as nat)
    }
}

/// Extension under which an unreadable history file is set aside, for a time
/// in seconds since the Unix epoch: `json.corrupt-<secs>`.
pub fn corrupt_backup_extension_at(secs: i64) -> (s: String)
    ensures
        s@ == "json.corrupt-"@ + signed_decimal(secs as int),
{
    let mut s = owned("json.corrupt-");
    if secs < 0 {
        push_char(&mut s, '-');
        let magnitude: u64 = ((-(secs + 1)) as u64) + 1;
        push_decimal(&mut s, magnitude);
        assert(s@ == "json.corrupt-"@ + signed_decimal(secs as int));
    } else {
        push_decimal(&mut s, secs as u64);
    }
    s
}

/// Extension under which an unreadable history file is set aside now; the
/// time is read from the clock (seconds since the Unix epoch, not negative).
pub fn corrupt_backup_extension() -> (s: String)
    ensures
        exists|t: i64| t >= 0 && s@ == "json.corrupt-"@ + signed_decimal(t as int),
{
    let t = unix_timestamp_now();
    corrupt_backup_extension_at(t)
}

/// Lowercase haystack used by the search box.
pub fn searchable_blob(entry: &HistoryEntry) -> (r: String)
    ensures
        r@ == search_blob(entry@),
{
    let mut s = String::new();
    push_str(&mut s, entry.title.as_str());
    push_char(&mut s, '\n');
    push_str(&mut s, entry.text.as_str());
    push_char(&mut s, '\n');
    push_opt(&mut s, &entry.polished_text);
    push_char(&mut s, '\n');
    push_opt(&mut s, &entry.summary);
    assert(s@ == blob_source(entry@));
    to_lowercase(s.as_str())
}

/// "`m`m `s`s" for durations of a minute or more, "`s`s" below.
pub open spec fn duration_text(secs: nat) -> Seq<char> {
    if secs / 60 > 0 {
        decimal(secs / 60) + seq!['m', ' '] + decimal(secs % 60) + seq!['s']
    } else {
        decimal(secs % 60) + seq!['s']
    }
}

/// Compact duration label ("3m 7s", "42s").
pub fn format_duration(secs: u64) -> (r: String)
    ensures
        r@ == duration_text(secs as nat),
{
    let mins = secs / 60;
    let s = secs % 60;
    let mut out = String::new();
    if mins > 0 {
        push_decimal(&mut out, mins);
        push_char(&mut out, 'm');
        push_char(&mut out, ' ');
    }
    push_decimal(&mut out, s);
    push_char(&mut out, 's');
    out
}

/// " • " separator.
pub open spec fn bullet() -> Seq<char> {
    seq![' ', '\u{2022}', ' ']
}

/// " · " separator.
pub open spec fn middot() -> Seq<char> {
    seq![' ', '\u{B7}', ' ']
}

/// The subtitle of a history row: timestamp, language and duration, then the
/// word count (and the word rate when the clip is long enough).
pub open spec fn subtitle_text(e: EntryView, words_label: Seq<char>) -> Seq<char> {
    let base = e.timestamp + bullet() + e.language + bullet() + duration_text(
        e.duration_secs as nat,
    );
    match e.word_count {
        None => base,
        Some(w) => {
            let with_words = base + bullet() + decimal(w as nat) + seq![' '] + words_label;
            match wpm_of(w as nat, e.duration_secs as nat * 1000) {
                Some(v) => with_words + middot() + decimal(v as nat) + seq![
                    ' ',
                    'w',
                    'p',
                    'm',
                ],
                None => with_words,
            }
        },
    }
}

fn push_bullet(s: &mut String)
    ensures
        final(s)@ == old(s)@ + bullet(),
{
    push_char(s, ' ');
    push_char(s, '\u{2022}');
    push_char(s, ' ');
}

/// Subtitle of a history row; `words_label` is the translated word "words".
pub fn entry_subtitle(entry: &HistoryEntry, words_label: &str) -> (r: String)
    ensures
        r@ == subtitle_text(entry@, words_label@),
{
    let mut s = String::new();
    push_str(&mut s, entry.timestamp.as_str());
    push_bullet(&mut s);
    push_str(&mut s, entry.language.as_str());
    push_bullet(&mut s);
    let d = format_duration(entry.duration_secs);
    push_str(&mut s, d.as_str());
    match entry.word_count {
        None => {},
        Some(w) => {
            push_bullet(&mut s);
            push_decimal(&mut s, w as u64);
            push_char(&mut s, ' ');
            push_str(&mut s, words_label);
            match wpm_for_secs(w as usize, entry.duration_secs) {
                Some(v) => {
                    push_char(&mut s, ' ');
                    push_char(&mut s, '\u{B7}');
                    push_char(&mut s, ' ');
                    push_decimal(&mut s, v as u64);
                    push_char(&mut s, ' ');
                    push_char(&mut s, 'w');
                    push_char(&mut s, 'p');
                    push_char(&mut s, 'm');
                },
                None => {},
            }
        },
    }
    s
}

/// The title of a dictation's history entry: the text itself when it is at
/// most 60 bytes long, else its first 60 bytes followed by an ellipsis.
pub open spec fn dictation_title_of(text: &str) -> Seq<char> {
    if text.len() > 60 {
        decode_utf8(text.spec_bytes().subrange(0, 60)) + seq!['\u{2026}']
    } else {
        text@
    }
}

/// Title for a new dictation entry. A text longer than 60 bytes is cut at
/// byte 60, which must fall on a character boundary.
pub fn dictation_title(text: &str) -> (t: String)
    requires
        text.len() > 60 ==> is_char_boundary(text.spec_bytes(), 60),
    ensures
        t@ == dictation_title_of(text),
{
    if text.len() > 60 {
        let (head, _) = text.split_at(60);
        proof {
            assert(head.spec_bytes() == text.spec_bytes().subrange(0, 60));
            broadcast use vstd::utf8::encode_utf8_decode_utf8;
            assert(decode_utf8(encode_utf8(head@)) == head@);
        }
        let mut t = owned(head);
        push_char(&mut t, '\u{2026}');
        t
    } else {
        owned(text)
    }
}

impl HistoryEntry {
    /// The entry recorded for a finished dictation, from its parts: the
    /// cleaned transcript, a fresh id, the time stamp, the language name and
    /// the model id.
    pub fn from_dictation_parts(
        id: String,
        timestamp: String,
        cleaned: &str,
        language: String,
        model: String,
    ) -> (e: HistoryEntry)
        requires
            cleaned.len() > 60 ==> is_char_boundary(cleaned.spec_bytes(), 60),
        ensures
            e@ == (EntryView {
                id: id@,
                title: dictation_title_of(cleaned),
                text: cleaned@,
                language: language@,
                duration_secs: 0,
                timestamp: timestamp@,
                model: model@,
                word_count: None,
                polished_text: None,
                summary: None,
            }),
    {
        HistoryEntry {
            id,
            title: dictation_title(cleaned),
            text: owned(cleaned),
            language,
            duration_secs: 0,
            timestamp,
            model,
            word_count: None,
            polished_text: None,
            summary: None,
        }
    }

    /// The entry recorded for a finished dictation, with a fresh random id
    /// and the current local time.
    pub fn for_dictation(cleaned: &str, language: String, model: String) -> (e: HistoryEntry)
        requires
            cleaned.len() > 60 ==> is_char_boundary(cleaned.spec_bytes(), 60),
        ensures
            is_hyphenated_uuid(e@.id),
            e@.title == dictation_title_of(cleaned),
            e@.text == cleaned@,
            e@.language == language@,
            e@.model == model@,
            e@.duration_secs == 0,
            is_minute_stamp(e@.timestamp),
            e@.word_count is None && e@.polished_text is None && e@.summary is None,
    {
        let id = new_entry_id();
        let timestamp = local_minute_timestamp();
        Self::from_dictation_parts(id, timestamp, cleaned, language, model)
    }
}

// ---------------------------------------------------------------------------
// Sequence helpers
// ---------------------------------------------------------------------------

/// The entries whose id differs from `id`, in order.
pub open spec fn without_id(es: Seq<EntryView>, id: Seq<char>) -> Seq<EntryView>
    decreases es.len(),
{
    if es.len() == 0 {
        Seq::empty()
    } else {
        let rest = without_id(es.drop_last(), id);
        if es.last().id == id {
            rest
        } else {
            rest.push(es.last())
        }
    }
}

/// The strings different from `id`, in order.
pub open spec fn without(rows: Seq<Seq<char>>, id: Seq<char>) -> Seq<Seq<char>>
    decreases rows.len(),
{
    if rows.len() == 0 {
        Seq::empty()
    } else {
        let rest = without(rows.drop_last(), id);
        if rows.last() == id {
            rest
        } else {
            rest.push(rows.last())
        }
    }
}

/// The pairs whose key differs from `k`, in order.
pub open spec fn without_key(ps: Seq<(Seq<char>, Seq<char>)>, k: Seq<char>) -> Seq<
    (Seq<char>, Seq<char>),
>
    decreases ps.len(),
{
    if ps.len() == 0 {
        Seq::empty()
    } else {
        let rest = without_key(ps.drop_last(), k);
        if ps.last().0 == k {
            rest
        } else {
            rest.push(ps.last())
        }
    }
}

/// Key/value pairs read as a map; a later pair overrides an earlier one.
pub open spec fn pairs_map(ps: Seq<(Seq<char>, Seq<char>)>) -> Map<Seq<char>, Seq<char>>
    decreases ps.len(),
{
    if ps.len() == 0 {
        Map::empty()
    } else {
        pairs_map(ps.drop_last()).insert(ps.last().0, ps.last().1)
    }
}

proof fn lemma_without_key_map(ps: Seq<(Seq<char>, Seq<char>)>, k: Seq<char>)
    ensures
        pairs_map(without_key(ps, k)) == pairs_map(ps).remove(k),
    decreases ps.len(),
{
    if ps.len() > 0 {
        lemma_without_key_map(ps.drop_last(), k);
        let rest = without_key(ps.drop_last(), k);
        if ps.last().0 != k {
            assert(rest.push(ps.last()).drop_last() == rest);
        }
        assert(pairs_map(without_key(ps, k)) =~= pairs_map(ps).remove(k));
    } else {
        assert(pairs_map(ps).remove(k) =~= Map::empty());
    }
}

proof fn lemma_without_contains(rows: Seq<Seq<char>>, id: Seq<char>, x: Seq<char>)
    ensures
        without(rows, id).contains(x) <==> (rows.contains(x) && x != id),
    decreases rows.len(),
{
    if rows.len() > 0 {
        lemma_without_contains(rows.drop_last(), id, x);
        let rest = without(rows.drop_last(), id);
        if rows.last() != id {
            if rest.push(rows.last()).contains(x) && x != rows.last() {
                let j = choose|j: int| 0 <= j < rest.push(rows.last()).len() && rest.push(
                    rows.last(),
                )[j] == x;
                assert(rest[j] == x);
            }
        }
        if rows.contains(x) && x != id {
            let j = choose|j: int| 0 <= j < rows.len() && rows[j] == x;
            if j < rows.len() - 1 {
                assert(rows.drop_last()[j] == x);
            }
            if rows.last() != id {
                if rest.contains(x) {
                    let m = choose|m: int| 0 <= m < rest.len() && rest[m] == x;
                    assert(rest.push(rows.last())[m] == x);
                } else {
                    assert(rest.push(rows.last())[rest.len() as int] == x);
                }
            }
        }
        if without(rows, id).contains(x) {
            let j = choose|j: int| 0 <= j < without(rows, id).len() && without(rows, id)[j] == x;
            if rows.last() != id && j == rest.len() {
                assert(rows[rows.len() - 1] == x);
            } else {
                assert(rest[j] == x);
                let m = choose|m: int| 0 <= m < rows.drop_last().len() && rows.drop_last()[m] == x;
                assert(rows[m] == x);
            }
        }
    }
}

proof fn lemma_without_id_ids(es: Seq<EntryView>, id: Seq<char>)
    ensures
        forall|j: int| 0 <= j < without_id(es, id).len() ==> #[trigger] without_id(es, id)[j].id
            != id,
    decreases es.len(),
{
    if es.len() > 0 {
        lemma_without_id_ids(es.drop_last(), id);
    }
}

fn remove_entries_with_id(v: &mut Vec<HistoryEntry>, id: &str)
    ensures
        final(v)@.map_values(|e: HistoryEntry| e@) == without_id(
            old(v)@.map_values(|e: HistoryEntry| e@),
            id@,
        ),
{
    let ghost orig = old(v)@.map_values(|e: HistoryEntry| e@);
    let n = v.len();
    let mut i: usize = 0;
    let mut k: usize = 0;
    while k < n
        invariant
            n == orig.len(),
            k <= n,
            i == without_id(orig.take(k as int), id@).len(),
            v.len() == i + (n - k),
            v@.map_values(|e: HistoryEntry| e@) == without_id(orig.take(k as int), id@)
                + orig.skip(k as int),
        decreases n - k,
    {
        let ghost before = v@.map_values(|e: HistoryEntry| e@);
        proof {
            assert(orig.take(k + 1).drop_last() == orig.take(k as int));
            assert(orig.take(k + 1).last() == orig[k as int]);
            assert(before[i as int] == orig[k as int]);
        }
        proof {
            assert(orig.skip(k as int) == seq![orig[k as int]] + orig.skip(k + 1));
        }
        if same(v[i].id.as_str(), id) {
            let _ = v.remove(i);
            proof {
                assert(without_id(orig.take(k + 1), id@) == without_id(orig.take(k as int), id@));
                assert(v@.map_values(|e: HistoryEntry| e@) =~= before.remove(i as int));
                assert(before.remove(i as int) =~= without_id(orig.take(k + 1), id@)
                    + orig.skip(k + 1));
            }
        } else {
            proof {
                assert(without_id(orig.take(k + 1), id@) == without_id(orig.take(k as int), id@).push(
                    orig[k as int],
                ));
                assert(v@.map_values(|e: HistoryEntry| e@) =~= without_id(orig.take(k + 1), id@)
                    + orig.skip(k + 1));
            }
            i = i + 1;
        }
        k = k + 1;
    }
    assert(orig.take(n as int) == orig);
    assert(orig.skip(n as int) == Seq::<EntryView>::empty());
    assert(v@.map_values(|e: HistoryEntry| e@) == without_id(orig, id@));
}

fn remove_rows_with_id(v: &mut Vec<String>, id: &str)
    ensures
        final(v)@.map_values(|s: String| s@) == without(old(v)@.map_values(|s: String| s@), id@),
{
    let ghost orig = old(v)@.map_values(|s: String| s@);
    let n = v.len();
    let mut i: usize = 0;
    let mut k: usize = 0;
    while k < n
        invariant
            n == orig.len(),
            k <= n,
            i == without(orig.take(k as int), id@).len(),
            v.len() == i + (n - k),
            v@.map_values(|s: String| s@) == without(orig.take(k as int), id@) + orig.skip(
                k as int,
            ),
        decreases n - k,
    {
        let ghost before = v@.map_values(|s: String| s@);
        proof {
            assert(orig.take(k + 1).drop_last() == orig.take(k as int));
            assert(orig.take(k + 1).last() == orig[k as int]);
            assert(before[i as int] == orig[k as int]);
        }
        proof {
            assert(orig.skip(k as int) == seq![orig[k as int]] + orig.skip(k + 1));
        }
        if same(v[i].as_str(), id) {
            let _ = v.remove(i);
            proof {
                assert(without(orig.take(k + 1), id@) == without(orig.take(k as int), id@));
                assert(v@.map_values(|s: String| s@) =~= before.remove(i as int));
                assert(before.remove(i as int) =~= without(orig.take(k + 1), id@) + orig.skip(
                    k + 1,
                ));
            }
        } else {
            proof {
                assert(without(orig.take(k + 1), id@) == without(orig.take(k as int), id@).push(
                    orig[k as int],
                ));
                assert(v@.map_values(|s: String| s@) =~= without(orig.take(k + 1), id@)
                    + orig.skip(k + 1));
            }
            i = i + 1;
        }
        k = k + 1;
    }
    assert(orig.take(n as int) == orig);
    assert(orig.skip(n as int) == Seq::<Seq<char>>::empty());
    assert(v@.map_values(|s: String| s@) == without(orig, id@));
}

pub open spec fn pairs_view(v: Seq<(String, String)>) -> Seq<(Seq<char>, Seq<char>)> {
    v.map_values(|p: (String, String)| (p.0@, p.1@))
}

fn remove_key(v: &mut Vec<(String, String)>, id: &str)
    ensures
        pairs_map(pairs_view(final(v)@)) == pairs_map(pairs_view(old(v)@)).remove(id@),
{
    let ghost orig = pairs_view(old(v)@);
    let n = v.len();
    let mut i: usize = 0;
    let mut k: usize = 0;
    while k < n
        invariant
            n == orig.len(),
            k <= n,
            i == without_key(orig.take(k as int), id@).len(),
            v.len() == i + (n - k),
            pairs_view(v@) == without_key(orig.take(k as int), id@) + orig.skip(k as int),
        decreases n - k,
    {
        let ghost before = pairs_view(v@);
        proof {
            assert(orig.take(k + 1).drop_last() == orig.take(k as int));
            assert(orig.take(k + 1).last() == orig[k as int]);
            assert(before[i as int] == orig[k as int]);
        }
        proof {
            assert(orig.skip(k as int) == seq![orig[k as int]] + orig.skip(k + 1));
        }
        if same(v[i].0.as_str(), id) {
            let _ = v.remove(i);
            proof {
                assert(without_key(orig.take(k + 1), id@) == without_key(orig.take(k as int), id@));
                assert(pairs_view(v@) =~= before.remove(i as int));
                assert(before.remove(i as int) =~= without_key(orig.take(k + 1), id@) + orig.skip(
                    k + 1,
                ));
            }
        } else {
            proof {
                assert(without_key(orig.take(k + 1), id@) == without_key(orig.take(k as int), id@).push(
                    orig[k as int],
                ));
                assert(pairs_view(v@) =~= without_key(orig.take(k + 1), id@) + orig.skip(k + 1));
            }
            i = i + 1;
        }
        k = k + 1;
    }
    assert(orig.take(n as int) == orig);
    assert(orig.skip(n as int) == Seq::<(Seq<char>, Seq<char>)>::empty());
    assert(pairs_view(v@) == without_key(orig, id@));
    proof {
        lemma_without_key_map(orig, id@);
    }
}

fn cache_insert(v: &mut Vec<(String, String)>, key: String, value: String)
    ensures
        pairs_map(pairs_view(final(v)@)) == pairs_map(pairs_view(old(v)@)).insert(key@, value@),
{
    remove_key(v, key.as_str());
    let ghost mid = pairs_view(v@);
    v.push((key, value));
    proof {
        assert(pairs_view(v@) == mid.push((key@, value@)));
        assert(pairs_view(v@).drop_last() == mid);
        assert(pairs_map(pairs_view(v@)) =~= pairs_map(pairs_view(old(v)@)).insert(key@, value@));
    }
}

fn cache_lookup<'a>(v: &'a Vec<(String, String)>, key: &str) -> (r: Option<&'a String>)
    ensures
        r is None <==> !pairs_map(pairs_view(v@)).contains_key(key@),
        r matches Some(s) ==> pairs_map(pairs_view(v@))[key@] == s@,
{
    let mut i: usize = v.len();
    proof {
        assert(v@.take(i as int) == v@);
        assert(pairs_view(v@.skip(i as int)) == Seq::<(Seq<char>, Seq<char>)>::empty());
        assert(pairs_map(pairs_view(v@)) =~= pairs_map(pairs_view(v@.take(i as int))).union_prefer_right(
            pairs_map(pairs_view(v@.skip(i as int))),
        ));
    }
    while i > 0
        invariant
            i <= v.len(),
            pairs_map(pairs_view(v@)) == pairs_map(pairs_view(v@.take(i as int))).union_prefer_right(
                pairs_map(pairs_view(v@.skip(i as int))),
            ),
            forall|j: int| i <= j < v.len() ==> v@[j].0@ != key@,
        decreases i,
    {
        if same(v[i - 1].0.as_str(), key) {
            proof {
                assert(pairs_view(v@.take(i as int)).drop_last() == pairs_view(v@.take(i - 1)));
                assert(pairs_view(v@.take(i as int)).last() == (v@[i - 1].0@, v@[i - 1].1@));
                lemma_pairs_map_absent(pairs_view(v@.skip(i as int)), key@);
            }
            return Some(&v[i - 1].1);
        }
        proof {
            let ps = pairs_view(v@);
            let a = pairs_view(v@.take(i - 1));
            let b = pairs_view(v@.skip(i as int));
            let b2 = pairs_view(v@.skip(i - 1));
            assert(pairs_view(v@.take(i as int)) == a.push(ps[i - 1]));
            assert(pairs_view(v@.take(i as int)).drop_last() == a);
            assert(b2 == seq![ps[i - 1]] + b);
            lemma_pairs_map_prepend(ps[i - 1], b);
            assert(pairs_map(pairs_view(v@.take(i as int))).union_prefer_right(pairs_map(b))
                =~= pairs_map(a).union_prefer_right(pairs_map(b2)));
        }
        i = i - 1;
    }
    proof {
        assert(v@.take(0) == Seq::<(String, String)>::empty());
        assert(pairs_view(v@.take(0)) == Seq::<(Seq<char>, Seq<char>)>::empty());
        lemma_pairs_map_absent(pairs_view(v@.skip(0)), key@);
        assert(pairs_map(pairs_view(v@)) =~= pairs_map(pairs_view(v@.skip(0))));
    }
    None
}

proof fn lemma_pairs_map_absent(ps: Seq<(Seq<char>, Seq<char>)>, k: Seq<char>)
    requires
        forall|j: int| 0 <= j < ps.len() ==> ps[j].0 != k,
    ensures
        !pairs_map(ps).contains_key(k),
    decreases ps.len(),
{
    if ps.len() > 0 {
        lemma_pairs_map_absent(ps.drop_last(), k);
    }
}

proof fn lemma_pairs_map_prepend(p: (Seq<char>, Seq<char>), ps: Seq<(Seq<char>, Seq<char>)>)
    ensures
        pairs_map(seq![p] + ps) == Map::<Seq<char>, Seq<char>>::empty().insert(
            p.0,
            p.1,
        ).union_prefer_right(pairs_map(ps)),
    decreases ps.len(),
{
    if ps.len() == 0 {
        assert(seq![p] + ps == seq![p]);
        assert(seq![p].drop_last() == Seq::<(Seq<char>, Seq<char>)>::empty());
        assert(pairs_map(seq![p]) == pairs_map(Seq::<(Seq<char>, Seq<char>)>::empty()).insert(p.0, p.1));
        assert(pairs_map(ps) == Map::<Seq<char>, Seq<char>>::empty());
        assert(pairs_map(seq![p] + ps) =~= Map::<Seq<char>, Seq<char>>::empty().insert(
            p.0,
            p.1,
        ).union_prefer_right(pairs_map(ps)));
    } else {
        lemma_pairs_map_prepend(p, ps.drop_last());
        let q = seq![p] + ps;
        assert(q.drop_last() == seq![p] + ps.drop_last());
        assert(q.last() == ps.last());
        assert(pairs_map(q) == pairs_map(q.drop_last()).insert(q.last().0, q.last().1));
        assert(pairs_map(ps) == pairs_map(ps.drop_last()).insert(ps.last().0, ps.last().1));
        assert(pairs_map(seq![p] + ps) =~= Map::<Seq<char>, Seq<char>>::empty().insert(
            p.0,
            p.1,
        ).union_prefer_right(pairs_map(ps)));
    }
}

fn has_row(v: &Vec<String>, id: &str) -> (b: bool)
    ensures
        b == v@.map_values(|s: String| s@).contains(id@),
{
    let mut i: usize = 0;
    while i < v.len()
        invariant
            i <= v.len(),
            forall|j: int| 0 <= j < i ==> v@[j]@ != id@,
        decreases v.len() - i,
    {
        if same(v[i].as_str(), id) {
            assert(v@.map_values(|s: String| s@)[i as int] == id@);
            return true;
        }
        i = i + 1;
    }
    false
}

// ---------------------------------------------------------------------------
// The store behind the history page
// ---------------------------------------------------------------------------

/// Number of rows inserted per idle tick while populating the list.
pub const POPULATE_CHUNK: usize = 50;

/// What the populate walk does next.
#[derive(Debug, Clone, Copy, PartialEq, Eq)]
pub enum PopulateStep {
    /// Schedule another chunk starting at this snapshot index.
    Continue(usize),
    /// Every snapshot entry has a row.
    Done,
    /// The list was cleared since the walk started; stop without adding rows.
    Stop,
}

/// Abstract state of the history page.
pub struct HistoryView {
    /// Every entry in memory, oldest first.
    pub entries: Seq<EntryView>,
    /// Ids that have a visible row.
    pub rows: Seq<Seq<char>>,
    /// Lowercase search text per id.
    pub cache: Map<Seq<char>, Seq<char>>,
    /// Bumped when the list is cleared, so a stale load or populate walk stops.
    pub generation: u64,
    /// Whether the initial disk load has merged into `entries`.
    pub loaded: bool,
    /// A save was requested while the initial load was still in flight.
    pub save_pending: bool,
}

/// The successor of a counter, wrapping at `u64::MAX` to 0.
pub open spec fn wrapped_successor(g: u64) -> u64 {
    if g == u64::MAX {
        0
    } else {
        (g + 1) as u64
    }
}

/// The index of the first entry with `id`, if any.
pub open spec fn is_first_with(es: Seq<EntryView>, id: Seq<char>, i: int) -> bool {
    &&& 0 <= i < es.len()
    &&& es[i].id == id
    &&& forall|j: int| 0 <= j < i ==> es[j].id != id
}

/// Entries added to rows by one populate step (those without a row yet).
pub open spec fn populate_rows(
    rows: Seq<Seq<char>>,
    cache: Map<Seq<char>, Seq<char>>,
    es: Seq<EntryView>,
) -> (Seq<Seq<char>>, Map<Seq<char>, Seq<char>>)
    decreases es.len(),
{
    if es.len() == 0 {
        (rows, cache)
    } else {
        let prev = populate_rows(rows, cache, es.drop_last());
        let e = es.last();
        if prev.0.contains(e.id) {
            prev
        } else {
            (prev.0.push(e.id), prev.1.insert(e.id, search_blob(e)))
        }
    }
}

/// No id occurs twice among the rows.
pub open spec fn rows_distinct(rows: Seq<Seq<char>>) -> bool {
    forall|i: int, j: int| 0 <= i < j < rows.len() ==> rows[i] != rows[j]
}

impl HistoryView {
    /// Every row has its search text cached, and no id has two rows.
    pub open spec fn wf(self) -> bool {
        &&& forall|i: int|
            0 <= i < self.rows.len() ==> self.cache.contains_key(#[trigger] self.rows[i])
        &&& rows_distinct(self.rows)
    }

    /// A save request: written at once after the initial load, deferred before it.
    pub open spec fn requested_save(self) -> HistoryView {
        if self.loaded {
            self
        } else {
            HistoryView { save_pending: true, ..self }
        }
    }

    /// After adding one entry with its row.
    pub open spec fn added(self, e: EntryView) -> HistoryView {
        HistoryView {
            entries: self.entries.push(e),
            rows: if self.rows.contains(e.id) {
                self.rows
            } else {
                self.rows.push(e.id)
            },
            cache: self.cache.insert(e.id, search_blob(e)),
            ..self
        }.requested_save()
    }

    /// After "Clear All".
    pub open spec fn cleared(self) -> HistoryView {
        HistoryView {
            entries: Seq::empty(),
            rows: Seq::empty(),
            cache: Map::empty(),
            generation: wrapped_successor(self.generation),
            ..self
        }.requested_save()
    }

    /// After deleting every entry with `id`.
    pub open spec fn deleted(self, id: Seq<char>) -> HistoryView {
        HistoryView {
            entries: without_id(self.entries, id),
            rows: without(self.rows, id),
            cache: self.cache.remove(id),
            ..self
        }.requested_save()
    }

    /// After renaming the first entry with `id` (unchanged when there is none).
    pub open spec fn retitled(self, id: Seq<char>, title: Seq<char>) -> HistoryView {
        if exists|i: int| is_first_with(self.entries, id, i) {
            let i = choose|i: int| is_first_with(self.entries, id, i);
            let e = EntryView { title, ..self.entries[i] };
            HistoryView {
                entries: self.entries.update(i, e),
                cache: self.cache.insert(id, search_blob(e)),
                ..self
            }.requested_save()
        } else {
            self
        }
    }

    /// Whether a load captured at generation `g` merges its entries.
    pub open spec fn load_merges(self, loaded: Seq<EntryView>, g: u64) -> bool {
        g == self.generation && loaded.len() > 0
    }

    /// After the initial load of `loaded` (captured at generation `g`) finishes.
    pub open spec fn finished_load(self, loaded: Seq<EntryView>, g: u64) -> HistoryView {
        HistoryView {
            entries: if self.load_merges(loaded, g) {
                loaded + self.entries
            } else {
                self.entries
            },
            loaded: true,
            save_pending: false,
            ..self
        }
    }

    /// After one populate step over `snapshot[next..end]`.
    pub open spec fn populated(self, snapshot: Seq<EntryView>, next: int, end: int) -> HistoryView {
        let r = populate_rows(self.rows, self.cache, snapshot.subrange(next, end));
        HistoryView { rows: r.0, cache: r.1, ..self }
    }

    /// Whether the row of `id` is shown for the lowercase query `q`.
    pub open spec fn row_visible(self, id: Seq<char>, q: Seq<char>) -> bool {
        q.len() == 0 || !self.cache.contains_key(id) || contains_seq(self.cache[id], q)
    }
}

/// In-memory state of the history page.
pub struct HistoryPage {
    entries: Vec<HistoryEntry>,
    rows: Vec<String>,
    /// Lowercase search text per entry id, as (id, text) pairs with distinct
    /// ids. A `HashMap` keyed by `String` would give lookups whose results
    /// cannot be proved (its specification needs a key type whose hashing
    /// and equality are modelled), so the pairs are searched directly.
    cache: Vec<(String, String)>,
    generation: u64,
    loaded: bool,
    save_pending: bool,
}

impl View for HistoryPage {
    type V = HistoryView;

    closed spec fn view(&self) -> HistoryView {
        HistoryView {
            entries: self.entries@.map_values(|e: HistoryEntry| e@),
            rows: self.rows@.map_values(|s: String| s@),
            cache: pairs_map(pairs_view(self.cache@)),
            generation: self.generation,
            loaded: self.loaded,
            save_pending: self.save_pending,
        }
    }
}

impl HistoryPage {
    /// An empty store waiting for its initial load.
    pub fn new() -> (s: Self)
        ensures
            s@.entries == Seq::<EntryView>::empty(),
            s@.rows == Seq::<Seq<char>>::empty(),
            s@.cache == Map::<Seq<char>, Seq<char>>::empty(),
            s@.generation == 0,
            !s@.loaded,
            !s@.save_pending,
            s@.wf(),
    {
        let s = HistoryPage {
            entries: Vec::new(),
            rows: Vec::new(),
            cache: Vec::new(),
            generation: 0,
            loaded: false,
            save_pending: false,
        };
        assert(s@.entries == Seq::<EntryView>::empty());
        assert(s@.rows == Seq::<Seq<char>>::empty());
        s
    }

    /// Every entry in memory, oldest first.
    pub fn entries(&self) -> (r: &Vec<HistoryEntry>)
        ensures
            r@.map_values(|e: HistoryEntry| e@) == self@.entries,
    {
        &self.entries
    }

    /// The generation to capture before starting the initial load.
    pub fn generation(&self) -> (g: u64)
        ensures
            g == self@.generation,
    {
        self.generation
    }

    /// Whether the initial load has merged.
    pub fn is_loaded(&self) -> (b: bool)
        ensures
            b == self@.loaded,
    {
        self.loaded
    }

    /// Whether an entry with `id` has a row.
    pub fn has_row(&self, id: &str) -> (b: bool)
        ensures
            b == self@.rows.contains(id@),
    {
        has_row(&self.rows, id)
    }

    /// A save request; returns whether to write a snapshot now.
    fn request_save(&mut self) -> (save_now: bool)
        ensures
            final(self)@ == old(self)@.requested_save(),
            save_now == old(self)@.loaded,
    {
        if !self.loaded {
            self.save_pending = true;
            return false;
        }
        true
    }

    /// The row of an entry: a new row for a new id; an id that has a row
    /// keeps it, with the search text replaced.
    fn add_row(&mut self, entry: &HistoryEntry)
        ensures
            final(self)@ == (HistoryView {
                rows: if old(self)@.rows.contains(entry@.id) {
                    old(self)@.rows
                } else {
                    old(self)@.rows.push(entry@.id)
                },
                cache: old(self)@.cache.insert(entry@.id, search_blob(entry@)),
                ..old(self)@
            }),
    {
        let blob = searchable_blob(entry);
        if !has_row(&self.rows, entry.id.as_str()) {
            let ghost before = self.rows@;
            self.rows.push(entry.id.clone());
            assert(self.rows@.map_values(|s: String| s@) == before.map_values(|s: String| s@).push(
                entry@.id,
            ));
        }
        cache_insert(&mut self.cache, entry.id.clone(), blob);
    }

    /// Add a dictation to the list (with its row); returns whether to write a
    /// snapshot now (saves are deferred until the initial load has merged).
    pub fn add_entry(&mut self, entry: HistoryEntry) -> (save_now: bool)
        ensures
            final(self)@ == old(self)@.added(entry@),
            save_now == old(self)@.loaded,
    {
        self.add_row(&entry);
        let ghost before = self.entries@;
        self.entries.push(entry);
        assert(self.entries@.map_values(|e: HistoryEntry| e@) == before.map_values(
            |e: HistoryEntry| e@,
        ).push(entry@));
        self.request_save()
    }

    /// Clear all history entries; an in-flight load or populate walk is
    /// cancelled. Returns whether to write a snapshot now.
    pub fn clear_all(&mut self) -> (save_now: bool)
        ensures
            final(self)@ == old(self)@.cleared(),
            save_now == old(self)@.loaded,
    {
        self.generation = self.generation.wrapping_add(1);
        self.entries.clear();
        self.rows.clear();
        self.cache.clear();
        assert(self@.entries == Seq::<EntryView>::empty());
        assert(self@.rows == Seq::<Seq<char>>::empty());
        assert(pairs_view(self.cache@) == Seq::<(Seq<char>, Seq<char>)>::empty());
        self.request_save()
    }

    /// Delete every entry with `id` (and its row). Returns whether to write a
    /// snapshot now.
    pub fn delete_entry(&mut self, id: &str) -> (save_now: bool)
        ensures
            final(self)@ == old(self)@.deleted(id@),
            save_now == old(self)@.loaded,
    {
        remove_entries_with_id(&mut self.entries, id);
        remove_rows_with_id(&mut self.rows, id);
        remove_key(&mut self.cache, id);
        self.request_save()
    }

    /// Rename the first entry with `id` (used by the LLM auto-title feature).
    /// Returns `(changed, save_now)`.
    pub fn update_entry_title(&mut self, id: &str, title: &str) -> (r: (bool, bool))
        ensures
            final(self)@ == old(self)@.retitled(id@, title@),
            r.0 == exists|i: int| is_first_with(old(self)@.entries, id@, i),
            r.1 == (r.0 && old(self)@.loaded),
    {
        let ghost es = self@.entries;
        let mut i: usize = 0;
        while i < self.entries.len()
            invariant
                i <= self.entries.len(),
                self@ == old(self)@,
                es == self@.entries,
                forall|j: int| 0 <= j < i ==> es[j].id != id@,
            decreases self.entries.len() - i,
        {
            if same(self.entries[i].id.as_str(), id) {
                proof {
                    assert(is_first_with(es, id@, i as int));
                }
                let mut e = self.entries.remove(i);
                e.title = owned(title);
                let blob = searchable_blob(&e);
                self.entries.insert(i, e);
                cache_insert(&mut self.cache, owned(id), blob);
                proof {
                    let k = choose|k: int| is_first_with(es, id@, k);
                    assert(k == i) by {
                        if k < i {
                        } else if k > i {
                            assert(es[i as int].id == id@);
                        }
                    }
                    assert(self@.entries == es.update(i as int, e@));
                }
                let save_now = self.request_save();
                return (true, save_now);
            }
            i = i + 1;
        }
        proof {
            assert forall|k: int| !is_first_with(es, id@, k) by {}
        }
        (false, false)
    }

    /// Merge the initially loaded entries (captured at generation `g`) before
    /// everything added since, unless a clear cancelled the load. Returns
    /// `(populate, save_now)`: whether to start the chunked row populate, and
    /// whether a save deferred during the load must be written now.
    pub fn finish_load(&mut self, loaded: Vec<HistoryEntry>, g: u64) -> (r: (bool, bool))
        ensures
            final(self)@ == old(self)@.finished_load(loaded@.map_values(|e: HistoryEntry| e@), g),
            r.0 == old(self)@.load_merges(loaded@.map_values(|e: HistoryEntry| e@), g),
            r.1 == old(self)@.save_pending,
    {
        let mut loaded = loaded;
        let ghost lv = loaded@.map_values(|e: HistoryEntry| e@);
        let merge = self.generation == g && loaded.len() > 0;
        if merge {
            let ghost newer = self@.entries;
            let mut newer_vec: Vec<HistoryEntry> = Vec::new();
            std::mem::swap(&mut newer_vec, &mut self.entries);
            assert(newer_vec@.map_values(|e: HistoryEntry| e@) == newer);
            loaded.append(&mut newer_vec);
            self.entries = loaded;
            assert(self@.entries == lv + newer);
        }
        self.loaded = true;
        let save_now = self.save_pending;
        self.save_pending = false;
        (merge, save_now)
    }

    /// One idle tick of the chunked populate over `snapshot` (taken when the
    /// walk started at generation `g`): rows are added for up to
    /// `POPULATE_CHUNK` entries from `next` that have none yet.
    pub fn populate_chunk(&mut self, snapshot: &Vec<HistoryEntry>, next: usize, g: u64) -> (r:
        PopulateStep)
        requires
            next <= snapshot.len(),
        ensures
            g != old(self)@.generation ==> r == PopulateStep::Stop && final(self)@ == old(self)@,
            g == old(self)@.generation ==> {
                let end = if snapshot.len() - next <= POPULATE_CHUNK {
                    snapshot.len() as int
                } else {
                    next + POPULATE_CHUNK
                };
                &&& final(self)@ == old(self)@.populated(
                    snapshot@.map_values(|e: HistoryEntry| e@),
                    next as int,
                    end,
                )
                &&& end >= snapshot.len() ==> r == PopulateStep::Done
                &&& end < snapshot.len() ==> r == PopulateStep::Continue(end as usize)
            },
    {
        if g != self.generation {
            return PopulateStep::Stop;
        }
        let end = if snapshot.len() - next <= POPULATE_CHUNK {
            snapshot.len()
        } else {
            next + POPULATE_CHUNK
        };
        let ghost sv = snapshot@.map_values(|e: HistoryEntry| e@);
        let ghost start = self@;
        let mut k = next;
        proof {
            assert(sv.subrange(next as int, next as int) == Seq::<EntryView>::empty());
        }
        while k < end
            invariant
                next <= k <= end <= snapshot.len(),
                sv == snapshot@.map_values(|e: HistoryEntry| e@),
                self@ == start.populated(sv, next as int, k as int),
            decreases end - k,
        {
            let e = &snapshot[k];
            proof {
                assert(sv.subrange(next as int, k + 1).drop_last() == sv.subrange(
                    next as int,
                    k as int,
                ));
                assert(sv.subrange(next as int, k + 1).last() == e@);
            }
            if !has_row(&self.rows, e.id.as_str()) {
                self.add_row(e);
            }
            k = k + 1;
        }
        if end >= snapshot.len() {
            PopulateStep::Done
        } else {
            PopulateStep::Continue(end)
        }
    }

    /// Whether the row of `id` is shown for the lowercase query `query`
    /// (every row for an empty query; a row without cached text stays shown).
    pub fn row_visible(&self, id: &str, query: &str) -> (b: bool)
        ensures
            b == self@.row_visible(id@, query@),
    {
        if query.is_empty() {
            return true;
        }
        match cache_lookup(&self.cache, id) {
            Some(blob) => contains(blob.as_str(), query),
            None => true,
        }
    }

    /// The entry with `id` shown in the detail window (the first one).
    pub fn find_entry(&self, id: &str) -> (r: Option<&HistoryEntry>)
        ensures
            r is None <==> !exists|i: int| is_first_with(self@.entries, id@, i),
            r matches Some(e) ==> exists|i: int|
                is_first_with(self@.entries, id@, i) && self@.entries[i] == e@,
    {
        let ghost es = self@.entries;
        let mut i: usize = 0;
        while i < self.entries.len()
            invariant
                i <= self.entries.len(),
                es == self@.entries,
                forall|j: int| 0 <= j < i ==> es[j].id != id@,
            decreases self.entries.len() - i,
        {
            if same(self.entries[i].id.as_str(), id) {
                assert(is_first_with(es, id@, i as int));
                return Some(&self.entries[i]);
            }
            i = i + 1;
        }
        assert forall|k: int| !is_first_with(es, id@, k) by {}
        None
    }
}

/// The search query as matched: the entered text lowercased.
pub fn search_query(entered: &str) -> (q: String)
    ensures
        q@ == lowercase_of(entered@),
{
    to_lowercase(entered)
}

/// Whether the list placeholder shows the empty-history title (no query) or
/// the "no matching transcriptions" title.
pub fn placeholder_is_empty_history(query: &str) -> (b: bool)
    ensures
        b == (query@.len() == 0),
{
    query.is_empty()
}

// ---------------------------------------------------------------------------
// Changes applied to the history file outside a loaded page
// ---------------------------------------------------------------------------

/// The views of a list of entries.
pub open spec fn entry_views(v: Seq<HistoryEntry>) -> Seq<EntryView> {
    v.map_values(|e: HistoryEntry| e@)
}

/// Rename the first entry with `id` in a list read from disk; returns whether
/// one was found (the file is rewritten only then).
pub fn retitle_first(entries: &mut Vec<HistoryEntry>, id: &str, title: &str) -> (changed: bool)
    ensures
        changed == exists|i: int| is_first_with(entry_views(old(entries)@), id@, i),
        changed ==> exists|i: int|
            is_first_with(entry_views(old(entries)@), id@, i)
                && entry_views(final(entries)@)
                == entry_views(old(entries)@).update(
                i,
                (EntryView { title: title@, ..old(entries)@[i]@ }),
            ),
        !changed ==> final(entries)@ == old(entries)@,
{
    let ghost es = entry_views(entries@);
    let mut i: usize = 0;
    while i < entries.len()
        invariant
            i <= entries.len(),
            entries@ == old(entries)@,
            es == entry_views(old(entries)@),
            forall|j: int| 0 <= j < i ==> es[j].id != id@,
        decreases entries.len() - i,
    {
        if same(entries[i].id.as_str(), id) {
            assert(is_first_with(es, id@, i as int));
            let mut e = entries.remove(i);
            e.title = owned(title);
            entries.insert(i, e);
            assert(entry_views(entries@) =~= es.update(
                i as int,
                (EntryView { title: title@, ..old(entries)@[i as int]@ }),
            ));
            return true;
        }
        i = i + 1;
    }
    assert forall|k: int| !is_first_with(es, id@, k) by {}
    false
}

// ---------------------------------------------------------------------------
// Ordering of background snapshot writes
// ---------------------------------------------------------------------------

/// Sequencing of snapshot writes: two background writes can finish out of
/// order, and an older snapshot must never overwrite a newer one.
pub struct SaveSequencer {
    issued: u64,
    saved: u64,
}

impl SaveSequencer {
    pub fn new() -> (s: Self)
        ensures
            s.issued_count() == 0,
            s.saved_seq() == 0,
            s.wf(),
    {
        SaveSequencer { issued: 0, saved: 0 }
    }

    pub closed spec fn issued_count(self) -> u64 {
        self.issued
    }

    pub closed spec fn saved_seq(self) -> u64 {
        self.saved
    }

    /// No snapshot newer than the last one numbered has been written.
    pub open spec fn wf(self) -> bool {
        self.saved_seq() <= self.issued_count()
    }

    /// The sequencer after numbering one more snapshot.
    pub closed spec fn after_begin(self) -> Self {
        SaveSequencer { issued: wrapped_successor(self.issued), saved: self.saved }
    }

    /// The sequencer after snapshot `seq` reached the disk.
    pub closed spec fn after_write(self, seq: u64) -> Self {
        SaveSequencer { issued: self.issued, saved: seq }
    }

    /// Whether snapshot `seq` may be written: nothing as new reached the disk.
    pub open spec fn accepts(self, seq: u64) -> bool {
        self.saved_seq() < seq
    }

    /// Number a new snapshot (the counter wraps around after `u64::MAX`).
    pub fn begin(&mut self) -> (seq: u64)
        ensures
            seq == wrapped_successor(old(self).issued_count()),
            *final(self) == old(self).after_begin(),
            final(self).issued_count() == seq,
            final(self).saved_seq() == old(self).saved_seq(),
            old(self).wf() && old(self).issued_count() < u64::MAX ==> final(self).wf(),
    {
        self.issued = self.issued.wrapping_add(1);
        self.issued
    }

    /// Whether snapshot `seq` may still be written (nothing newer was).
    pub fn should_write(&self, seq: u64) -> (b: bool)
        ensures
            b == self.accepts(seq),
            b == (self.saved_seq() < seq),
    {
        self.saved < seq
    }

    /// Record that snapshot `seq` reached the disk.
    pub fn record_written(&mut self, seq: u64)
        requires
            old(self).saved_seq() < seq,
        ensures
            *final(self) == old(self).after_write(seq),
            final(self).saved_seq() == seq,
            final(self).issued_count() == old(self).issued_count(),
            old(self).wf() && seq <= old(self).issued_count() ==> final(self).wf(),
    {
        self.saved = seq;
    }
}

/// Of two snapshots numbered one after the other, the newer one is what ends
/// up written, whichever worker finishes first: finishing first, it is
/// written and the older one is then refused; finishing second, both are
/// written and the newer one last. Numbers keep every write at or below the
/// last number handed out. This holds while the numbering does not wrap
/// around (fewer than `u64::MAX` snapshots).
pub proof fn law_newest_snapshot_wins(s: SaveSequencer)
    requires
        s.wf(),
        s.issued_count() < u64::MAX - 1,
    ensures
        ({
            let s2 = s.after_begin().after_begin();
            let first = s.after_begin().issued_count();
            let second = s2.issued_count();
            &&& s2.wf()
            &&& first < second
            &&& s2.accepts(second) && s2.after_write(second).saved_seq() == second
            &&& !s2.after_write(second).accepts(first)
            &&& s2.accepts(first) && s2.after_write(first).accepts(second)
            &&& s2.after_write(first).after_write(second).saved_seq() == second
            &&& s2.after_write(first).after_write(second).wf()
        }),
{
}

// ---------------------------------------------------------------------------
// Laws
// ---------------------------------------------------------------------------

/// Before the initial load has merged, no request writes the file (a write
/// would truncate the prior history on disk): the save is deferred, and the
/// end of the load releases exactly one deferred save.
pub proof fn law_no_save_before_load(v: HistoryView, e: EntryView, id: Seq<char>, es: Seq<EntryView>, g: u64)
    requires
        !v.loaded,
    ensures
        v.added(e).save_pending && !v.added(e).loaded,
        v.cleared().save_pending && !v.cleared().loaded,
        v.deleted(id).save_pending && !v.deleted(id).loaded,
        v.added(e).finished_load(es, g).loaded,
        !v.added(e).finished_load(es, g).save_pending,
{
}

/// A clear confirmed while the initial load is still reading cancels its
/// merge: the deleted entries are not brought back.
pub proof fn law_clear_cancels_stale_load(v: HistoryView, loaded: Seq<EntryView>)
    ensures
        v.cleared().finished_load(loaded, v.generation).entries == Seq::<EntryView>::empty(),
        v.cleared().populated(loaded, 0, 0) == v.cleared(),
{
    assert(loaded.subrange(0, 0) == Seq::<EntryView>::empty());
}

/// A load that is not cancelled keeps everything added meanwhile, after the
/// loaded entries.
pub proof fn law_load_keeps_new_entries(v: HistoryView, loaded: Seq<EntryView>)
    ensures
        v.finished_load(loaded, v.generation).entries == loaded + v.entries,
        v.finished_load(loaded, v.generation).entries.len() == loaded.len() + v.entries.len(),
{
    if loaded.len() == 0 {
        assert(loaded + v.entries == v.entries);
    }
}

/// Deleting an id leaves no entry, row or search text for it.
pub proof fn law_delete_removes_id(v: HistoryView, id: Seq<char>)
    ensures
        forall|j: int|
            0 <= j < v.deleted(id).entries.len() ==> #[trigger] v.deleted(id).entries[j].id != id,
        !v.deleted(id).rows.contains(id),
        !v.deleted(id).cache.contains_key(id),
{
    lemma_without_id_ids(v.entries, id);
    lemma_without_contains(v.rows, id, id);
}

/// Every operation keeps a cached search text for every row, and never
/// gives an id a second row.
pub proof fn law_rows_have_search_text(
    v: HistoryView,
    e: EntryView,
    id: Seq<char>,
    title: Seq<char>,
    loaded: Seq<EntryView>,
    g: u64,
    snapshot: Seq<EntryView>,
    next: int,
    end: int,
)
    requires
        v.wf(),
        0 <= next <= end <= snapshot.len(),
    ensures
        v.added(e).wf(),
        v.cleared().wf(),
        v.deleted(id).wf(),
        v.retitled(id, title).wf(),
        v.finished_load(loaded, g).wf(),
        v.populated(snapshot, next, end).wf(),
{
    assert forall|i: int| 0 <= i < v.deleted(id).rows.len() implies v.deleted(
        id,
    ).cache.contains_key(#[trigger] v.deleted(id).rows[i]) by {
        let x = v.deleted(id).rows[i];
        assert(without(v.rows, id).contains(x));
        lemma_without_contains(v.rows, id, x);
        let j = choose|j: int| 0 <= j < v.rows.len() && v.rows[j] == x;
        assert(v.cache.contains_key(v.rows[j]));
    }
    assert forall|i: int| 0 <= i < v.added(e).rows.len() implies v.added(e).cache.contains_key(
        #[trigger] v.added(e).rows[i],
    ) by {
        if i < v.rows.len() {
            assert(v.cache.contains_key(v.rows[i]));
        }
    }
    if !v.rows.contains(e.id) {
        let r = v.rows.push(e.id);
        assert forall|i: int, j: int| 0 <= i < j < r.len() implies r[i] != r[j] by {
            if j == v.rows.len() {
                assert(r[i] == v.rows[i]);
            }
        }
    }
    lemma_without_distinct(v.rows, id);
    lemma_populate_wf(v.rows, v.cache, snapshot.subrange(next, end));
    lemma_populate_distinct(v.rows, v.cache, snapshot.subrange(next, end));
}

proof fn lemma_without_distinct(rows: Seq<Seq<char>>, id: Seq<char>)
    requires
        rows_distinct(rows),
    ensures
        rows_distinct(without(rows, id)),
    decreases rows.len(),
{
    if rows.len() > 0 {
        let p = rows.drop_last();
        assert forall|i: int, j: int| 0 <= i < j < p.len() implies p[i] != p[j] by {
            assert(p[i] == rows[i] && p[j] == rows[j]);
        }
        lemma_without_distinct(p, id);
        let rest = without(p, id);
        if rows.last() != id {
            lemma_without_contains(p, id, rows.last());
            if p.contains(rows.last()) {
                let k = choose|k: int| 0 <= k < p.len() && p[k] == rows.last();
                assert(rows[k] == rows[rows.len() - 1]);
            }
            let r = rest.push(rows.last());
            assert forall|i: int, j: int| 0 <= i < j < r.len() implies r[i] != r[j] by {
                if j == rest.len() {
                    assert(r[i] == rest[i]);
                    assert(rest.contains(rest[i]));
                }
            }
        }
    }
}

proof fn lemma_populate_wf(
    rows: Seq<Seq<char>>,
    cache: Map<Seq<char>, Seq<char>>,
    es: Seq<EntryView>,
)
    requires
        forall|i: int| 0 <= i < rows.len() ==> cache.contains_key(#[trigger] rows[i]),
    ensures
        ({
            let r = populate_rows(rows, cache, es);
            forall|i: int| 0 <= i < r.0.len() ==> r.1.contains_key(#[trigger] r.0[i])
        }),
    decreases es.len(),
{
    if es.len() > 0 {
        lemma_populate_wf(rows, cache, es.drop_last());
        let prev = populate_rows(rows, cache, es.drop_last());
        let e = es.last();
        if !prev.0.contains(e.id) {
            let r = (prev.0.push(e.id), prev.1.insert(e.id, search_blob(e)));
            assert forall|i: int| 0 <= i < r.0.len() implies r.1.contains_key(#[trigger] r.0[i]) by {
                if i < prev.0.len() {
                    assert(prev.1.contains_key(prev.0[i]));
                }
            }
        }
    }
}

/// A populate step never adds a second row for an id that already has one.
pub proof fn law_populate_no_duplicate_rows(v: HistoryView, snapshot: Seq<EntryView>, next: int, end: int)
    requires
        0 <= next <= end <= snapshot.len(),
        forall|i: int, j: int| 0 <= i < j < v.rows.len() ==> v.rows[i] != v.rows[j],
    ensures
        ({
            let r = v.populated(snapshot, next, end).rows;
            forall|i: int, j: int| 0 <= i < j < r.len() ==> r[i] != r[j]
        }),
{
    lemma_populate_distinct(v.rows, v.cache, snapshot.subrange(next, end));
}

proof fn lemma_populate_distinct(
    rows: Seq<Seq<char>>,
    cache: Map<Seq<char>, Seq<char>>,
    es: Seq<EntryView>,
)
    requires
        forall|i: int, j: int| 0 <= i < j < rows.len() ==> rows[i] != rows[j],
    ensures
        ({
            let r = populate_rows(rows, cache, es).0;
            forall|i: int, j: int| 0 <= i < j < r.len() ==> r[i] != r[j]
        }),
    decreases es.len(),
{
    if es.len() > 0 {
        lemma_populate_distinct(rows, cache, es.drop_last());
        let prev = populate_rows(rows, cache, es.drop_last());
        let e = es.last();
        if !prev.0.contains(e.id) {
            let r = prev.0.push(e.id);
            assert forall|i: int, j: int| 0 <= i < j < r.len() implies r[i] != r[j] by {
                if j == prev.0.len() {
                    assert(r[i] == prev.0[i]);
                }
            }
        }
    }
}

/// The search text of an entry is made from every field a user can search:
/// its title, its text, its polished text and its summary each occur, whole,
/// in the text that is lowercased for the search box, and an added entry's
/// row is matched against exactly that lowercased text.
pub proof fn law_search_covers_every_field(v: HistoryView, e: EntryView)
    ensures
        contains_seq(blob_source(e), e.title),
        contains_seq(blob_source(e), e.text),
        e.polished_text matches Some(p) ==> contains_seq(blob_source(e), p),
        e.summary matches Some(m) ==> contains_seq(blob_source(e), m),
        search_blob(e) == lowercase_of(blob_source(e)),
        v.added(e).cache[e.id] == lowercase_of(blob_source(e)),
{
    let b = blob_source(e);
    let t: int = e.title.len() as int;
    let x: int = e.text.len() as int;
    let p: int = or_empty(e.polished_text).len() as int;
    assert(b.subrange(0, t) =~= e.title);
    assert(occurs_at(b, e.title, 0));
    assert(b.subrange(t + 1, t + 1 + x) =~= e.text);
    assert(occurs_at(b, e.text, t + 1));
    assert(b.subrange(t + 1 + x + 1, t + 1 + x + 1 + p) =~= or_empty(e.polished_text));
    if let Some(pp) = e.polished_text {
        assert(occurs_at(b, pp, t + 1 + x + 1));
    }
    assert(b.subrange(t + x + p + 3, b.len() as int) =~= or_empty(e.summary));
    if let Some(m) = e.summary {
        assert(occurs_at(b, m, t + x + p + 3));
    }
}

/// An empty query shows every row.
pub proof fn law_empty_query_shows_all(v: HistoryView, id: Seq<char>)
    ensures
        v.row_visible(id, Seq::empty()),
{
}

/// Renaming changes only the title of the first entry with the id; every
/// other entry and every count stays as it was.
pub proof fn law_retitle_touches_one_entry(v: HistoryView, id: Seq<char>, title: Seq<char>)
    ensures
        v.retitled(id, title).entries.len() == v.entries.len(),
        v.retitled(id, title).rows == v.rows,
        forall|j: int|
            0 <= j < v.entries.len() && v.entries[j].id != id ==> #[trigger] v.retitled(
                id,
                title,
            ).entries[j] == v.entries[j],
        forall|j: int|
            is_first_with(v.entries, id, j) ==> #[trigger] v.retitled(id, title).entries[j].title
                == title,
{
    if exists|i: int| is_first_with(v.entries, id, i) {
        let i = choose|i: int| is_first_with(v.entries, id, i);
        assert forall|j: int| is_first_with(v.entries, id, j) implies #[trigger] v.retitled(
            id,
            title,
        ).entries[j].title == title by {
            if j < i {
                assert(v.entries[j].id != id);
            } else if j > i {
                assert(v.entries[i].id != id);
            }
        }
    }
}

} // verus!
