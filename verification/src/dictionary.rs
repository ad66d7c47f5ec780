//! The personal dictionary: the vocabulary terms edited one per line, and
//! the replacement rules with their row titles.

use vstd::prelude::*;
use crate::text::{trimmed, trim, has_non_ws, is_blank, owned, push_str, push_char, chars_of};

verus! {

/// The pieces of a text between line feeds (a text without line feeds is
/// one piece; a trailing line feed ends with an empty piece).
pub open spec fn pieces(s: Seq<char>) -> Seq<Seq<char>>
    decreases s.len(),
{
    if s.len() == 0 {
        seq![Seq::empty()]
    } else {
        let r = pieces(s.drop_last());
        if s.last() == '\n' {
            r.push(Seq::empty())
        } else {
            r.update(r.len() - 1, r.last().push(s.last()))
        }
    }
}

/// The trimmed pieces that are not empty, in order.
pub open spec fn kept_terms(p: Seq<Seq<char>>) -> Seq<Seq<char>>
    decreases p.len(),
{
    if p.len() == 0 {
        Seq::empty()
    } else {
        let r = kept_terms(p.drop_last());
        let t = trimmed(p.last());
        if t.len() > 0 {
            r.push(t)
        } else {
            r
        }
    }
}

/// The vocabulary terms of the editor text: each line trimmed, blank lines dropped.
pub open spec fn terms_of(text: Seq<char>) -> Seq<Seq<char>> {
    kept_terms(pieces(text))
}

/// Terms joined one per line.
pub open spec fn lines_joined(ts: Seq<Seq<char>>) -> Seq<char>
    decreases ts.len(),
{
    if ts.len() == 0 {
        Seq::empty()
    } else if ts.len() == 1 {
        ts[0]
    } else {
        lines_joined(ts.drop_last()) + seq!['\n'] + ts.last()
    }
}

proof fn lemma_pieces_nonempty(s: Seq<char>)
    ensures
        pieces(s).len() >= 1,
    decreases s.len(),
{
    if s.len() > 0 {
        lemma_pieces_nonempty(s.drop_last());
    }
}

/// Parse the editor text into vocabulary terms.
pub fn parse_terms(text: &str) -> (terms: Vec<String>)
    ensures
        terms@.map_values(|t: String| t@) == terms_of(text@),
{
    let v = chars_of(text);
    let mut terms: Vec<String> = Vec::new();
    let mut current = String::new();
    let mut i: usize = 0;
    proof {
        assert(v@.take(0) =~= Seq::<char>::empty());
    }
    while i < v.len()
        invariant
            v@ == text@,
            i <= v.len(),
            pieces(v@.take(i as int)).len() >= 1,
            current@ == pieces(v@.take(i as int)).last(),
            terms@.map_values(|t: String| t@) == kept_terms(pieces(v@.take(i as int)).drop_last()),
        decreases v.len() - i,
    {
        let c = v[i];
        let ghost p = pieces(v@.take(i as int));
        assert(v@.take(i + 1).drop_last() =~= v@.take(i as int));
        assert(v@.take(i + 1).last() == c);
        if c == '\n' {
            let t = trim(current.as_str());
            let ghost before = terms@.map_values(|t: String| t@);
            if !is_blank(t.as_str()) {
                terms.push(t);
            }
            proof {
                assert(pieces(v@.take(i + 1)) == p.push(Seq::empty()));
                assert(pieces(v@.take(i + 1)).drop_last() =~= p);
                assert(p =~= p.drop_last().push(p.last()));
                if has_non_ws(trimmed(current@)) {
                    assert(terms@.map_values(|t: String| t@) =~= before.push(trimmed(current@)));
                    lemma_trimmed_nonempty(current@);
                } else {
                    lemma_trimmed_nonempty(current@);
                    assert(terms@.map_values(|t: String| t@) =~= before);
                }
            }
            current = String::new();
        } else {
            push_char(&mut current, c);
            proof {
                assert(pieces(v@.take(i + 1)) == p.update(p.len() - 1, p.last().push(c)));
                assert(pieces(v@.take(i + 1)).drop_last() =~= p.drop_last());
            }
        }
        i = i + 1;
    }
    assert(v@.take(v.len() as int) =~= v@);
    let t = trim(current.as_str());
    let ghost before = terms@.map_values(|t: String| t@);
    let ghost p = pieces(v@);
    if !is_blank(t.as_str()) {
        terms.push(t);
    }
    proof {
        assert(p =~= p.drop_last().push(p.last()));
        lemma_trimmed_nonempty(current@);
        if has_non_ws(trimmed(current@)) {
            assert(terms@.map_values(|t: String| t@) =~= before.push(trimmed(current@)));
        } else {
            assert(terms@.map_values(|t: String| t@) =~= before);
        }
    }
    terms
}

/// A trimmed text is empty exactly when it has no non-whitespace character.
proof fn lemma_trimmed_nonempty(s: Seq<char>)
    ensures
        trimmed(s).len() > 0 <==> has_non_ws(trimmed(s)),
{
    crate::text::lemma_trimmed_shape(s);
}

/// Join terms one per line for the editor.
pub fn join_terms(terms: &[String]) -> (s: String)
    ensures
        s@ == lines_joined(terms@.map_values(|t: String| t@)),
{
    let ghost ts = terms@.map_values(|t: String| t@);
    let mut s = String::new();
    let mut i: usize = 0;
    while i < terms.len()
        invariant
            i <= terms@.len(),
            ts == terms@.map_values(|t: String| t@),
            s@ == lines_joined(ts.take(i as int)),
        decreases terms@.len() - i,
    {
        assert(ts.take(i + 1).drop_last() =~= ts.take(i as int));
        if i > 0 {
            push_char(&mut s, '\n');
        }
        push_str(&mut s, terms[i].as_str());
        proof {
            if i == 0 {
                assert(s@ =~= lines_joined(ts.take(1)));
            } else {
                assert(s@ =~= lines_joined(ts.take(i as int)) + seq!['\n'] + ts[i as int]);
            }
        }
        i = i + 1;
    }
    assert(ts.take(terms@.len() as int) =~= ts);
    s
}

proof fn lemma_pieces_no_newline(s: Seq<char>)
    requires
        !s.contains('\n'),
    ensures
        pieces(s) == seq![s],
    decreases s.len(),
{
    if s.len() > 0 {
        assert(!s.drop_last().contains('\n')) by {
            if s.drop_last().contains('\n') {
                let k = choose|k: int| 0 <= k < s.drop_last().len() && s.drop_last()[k] == '\n';
                assert(s[k] == '\n');
            }
        }
        lemma_pieces_no_newline(s.drop_last());
        assert(s.last() != '\n') by {
            assert(s[s.len() - 1] == s.last());
        }
        assert(s.drop_last().push(s.last()) =~= s);
        assert(seq![s.drop_last()].update(0, s.drop_last().push(s.last())) =~= seq![s]);
    } else {
        assert(s =~= Seq::<char>::empty());
    }
}

proof fn lemma_pieces_after_newline(a: Seq<char>, b: Seq<char>)
    requires
        !b.contains('\n'),
    ensures
        pieces(a + seq!['\n'] + b) == pieces(a).push(b),
    decreases b.len(),
{
    let s = a + seq!['\n'] + b;
    if b.len() == 0 {
        assert(s.drop_last() =~= a);
        assert(b =~= Seq::<char>::empty());
    } else {
        let b2 = b.drop_last();
        assert(!b2.contains('\n')) by {
            if b2.contains('\n') {
                let k = choose|k: int| 0 <= k < b2.len() && b2[k] == '\n';
                assert(b[k] == '\n');
            }
        }
        lemma_pieces_after_newline(a, b2);
        assert(s.drop_last() =~= a + seq!['\n'] + b2);
        assert(s.last() == b.last());
        assert(b.last() != '\n') by {
            assert(b[b.len() - 1] == b.last());
        }
        lemma_pieces_nonempty(a);
        assert(b2.push(b.last()) =~= b);
        assert(pieces(a).push(b2).update(pieces(a).len() as int, b2.push(b.last())) =~= pieces(
            a,
        ).push(b));
    }
}

/// The pieces of joined lines are the lines themselves.
proof fn lemma_pieces_of_joined(ts: Seq<Seq<char>>)
    requires
        ts.len() >= 1,
        forall|i: int| 0 <= i < ts.len() ==> !(#[trigger] ts[i]).contains('\n'),
    ensures
        pieces(lines_joined(ts)) == ts,
    decreases ts.len(),
{
    if ts.len() == 1 {
        lemma_pieces_no_newline(ts[0]);
        assert(seq![ts[0]] =~= ts);
    } else {
        let init = ts.drop_last();
        assert forall|i: int| 0 <= i < init.len() implies !(#[trigger] init[i]).contains('\n') by {
            assert(init[i] == ts[i]);
        }
        lemma_pieces_of_joined(init);
        assert(!ts.last().contains('\n')) by {
            assert(ts[ts.len() - 1] == ts.last());
        }
        lemma_pieces_after_newline(lines_joined(init), ts.last());
        assert(init.push(ts.last()) =~= ts);
    }
}

proof fn lemma_kept_all(ts: Seq<Seq<char>>)
    requires
        forall|i: int| 0 <= i < ts.len() ==> trimmed(#[trigger] ts[i]) == ts[i] && ts[i].len() > 0,
    ensures
        kept_terms(ts) == ts,
    decreases ts.len(),
{
    if ts.len() > 0 {
        let init = ts.drop_last();
        assert forall|i: int| 0 <= i < init.len() implies trimmed(#[trigger] init[i]) == init[i]
            && init[i].len() > 0 by {
            assert(init[i] == ts[i]);
        }
        lemma_kept_all(init);
        assert(ts[ts.len() - 1] == ts.last());
        assert(init.push(ts.last()) =~= ts);
    }
}

/// Adding a rule and removing it again (the new row's Remove button) leaves
/// the rules as they were.
pub proof fn law_add_then_remove_rule(before: Seq<DictReplacement>, after: Seq<DictReplacement>)
    requires
        after.len() == before.len() + 1,
        after.drop_last() == before,
    ensures
        after.remove(before.len() as int) == before,
{
    assert(after.remove(before.len() as int) =~= after.drop_last());
}

/// Terms shown in the editor (one per line) read back as the same terms,
/// when each is trimmed, non-empty and on one line, as saved terms are.
pub proof fn law_terms_round_trip(ts: Seq<Seq<char>>)
    requires
        forall|i: int|
            0 <= i < ts.len() ==> trimmed(#[trigger] ts[i]) == ts[i] && ts[i].len() > 0
                && !ts[i].contains('\n'),
    ensures
        terms_of(lines_joined(ts)) == ts,
{
    if ts.len() == 0 {
        assert(lines_joined(ts) =~= Seq::<char>::empty());
        assert(pieces(Seq::<char>::empty()) == seq![Seq::<char>::empty()]);
        assert(trimmed(Seq::<char>::empty()) =~= Seq::<char>::empty());
        assert(seq![Seq::<char>::empty()].drop_last() =~= Seq::<Seq<char>>::empty());
        let e = Seq::<char>::empty();
        let p = seq![e];
        assert(p.drop_last() =~= Seq::<Seq<char>>::empty());
        assert(kept_terms(Seq::<Seq<char>>::empty()) == Seq::<Seq<char>>::empty());
        assert(p.last() == e);
        assert(trimmed(e).len() == 0);
        assert(kept_terms(p) =~= Seq::<Seq<char>>::empty());
        assert(ts =~= Seq::<Seq<char>>::empty());
    } else {
        lemma_pieces_of_joined(ts);
        lemma_kept_all(ts);
    }
}

/// A replacement rule: what was heard, what to write instead, and how to match.
pub struct DictReplacement {
    pub from: String,
    pub to: String,
    pub whole_word: bool,
    pub case_sensitive: bool,
}

pub struct RuleView {
    pub from: Seq<char>,
    pub to: Seq<char>,
    pub whole_word: bool,
    pub case_sensitive: bool,
}

impl View for DictReplacement {
    type V = RuleView;

    open spec fn view(&self) -> RuleView {
        RuleView {
            from: self.from@,
            to: self.to@,
            whole_word: self.whole_word,
            case_sensitive: self.case_sensitive,
        }
    }
}

/// The views of a list of rules.
pub open spec fn rule_views(v: Seq<DictReplacement>) -> Seq<RuleView> {
    v.map_values(|r: DictReplacement| r@)
}

fn copy_rule(r: &DictReplacement) -> (c: DictReplacement)
    ensures
        c@ == r@,
{
    DictReplacement {
        from: owned(r.from.as_str()),
        to: owned(r.to.as_str()),
        whole_word: r.whole_word,
        case_sensitive: r.case_sensitive,
    }
}

/// The dictionary settings page: whether the dictionary is used, the
/// vocabulary terms and the replacement rules.
pub struct DictionaryPage {
    pub enabled: bool,
    pub terms: Vec<String>,
    pub rules: Vec<DictReplacement>,
}

impl DictionaryPage {
    /// The page for the saved settings.
    pub fn new(enabled: bool, terms: Vec<String>, rules: Vec<DictReplacement>) -> (p: Self)
        ensures
            p.enabled == enabled,
            p.terms@ == terms@,
            p.rules@ == rules@,
    {
        DictionaryPage { enabled, terms, rules }
    }

    /// The editor text: the terms one per line.
    pub fn editor_text(&self) -> (s: String)
        ensures
            s@ == lines_joined(self.terms@.map_values(|t: String| t@)),
    {
        join_terms(self.terms.as_slice())
    }

    /// The editor text changed: the terms are re-read from it.
    pub fn terms_edited(&mut self, text: &str)
        ensures
            final(self).terms@.map_values(|t: String| t@) == terms_of(text@),
            final(self).enabled == old(self).enabled,
            final(self).rules@ == old(self).rules@,
    {
        self.terms = parse_terms(text);
    }

    /// Add an empty rule at the end.
    pub fn add_rule(&mut self)
        ensures
            final(self).enabled == old(self).enabled,
            final(self).rules@.len() == old(self).rules@.len() + 1,
            final(self).rules@.drop_last() == old(self).rules@,
            final(self).rules@.last()@.from.len() == 0 && final(self).rules@.last()@.to.len() == 0,
            !final(self).rules@.last().whole_word && !final(self).rules@.last().case_sensitive,
            final(self).terms@ == old(self).terms@,
    {
        let ghost before = self.rules@;
        self.rules.push(new_rule());
        assert(self.rules@.drop_last() =~= before);
    }

    /// Remove rule `idx` (past the end: nothing). Returns whether one was removed.
    pub fn remove_rule(&mut self, idx: usize) -> (removed: bool)
        ensures
            final(self).enabled == old(self).enabled,
            removed == (idx < old(self).rules@.len()),
            removed ==> final(self).rules@ == old(self).rules@.remove(idx as int),
            !removed ==> final(self).rules@ == old(self).rules@,
            final(self).terms@ == old(self).terms@,
    {
        remove_rule(&mut self.rules, idx)
    }

    /// Change rule `idx` (past the end: nothing) to `rule`.
    pub fn update_rule(&mut self, idx: usize, rule: DictReplacement)
        ensures
            final(self).enabled == old(self).enabled,
            idx < old(self).rules@.len() ==> rule_views(final(self).rules@) == rule_views(
                old(self).rules@,
            ).update(idx as int, rule@),
            idx >= old(self).rules@.len() ==> final(self).rules@ == old(self).rules@,
            final(self).terms@ == old(self).terms@,
    {
        if idx < self.rules.len() {
            let ghost before = rule_views(self.rules@);
            self.rules.set(idx, rule);
            assert(rule_views(self.rules@) =~= before.update(idx as int, rule@));
        }
    }

    /// A copy of rule `idx` to edit.
    pub fn rule(&self, idx: usize) -> (r: Option<DictReplacement>)
        ensures
            match r {
                Some(c) => idx < self.rules@.len() && c@ == self.rules@[idx as int]@,
                None => idx >= self.rules@.len(),
            },
    {
        if idx < self.rules.len() {
            Some(copy_rule(&self.rules[idx]))
        } else {
            None
        }
    }

    /// The row title of every rule, in order.
    pub fn rule_titles(&self) -> (v: Vec<String>)
        ensures
            v@.len() == self.rules@.len(),
            forall|i: int|
                0 <= i < v@.len() ==> #[trigger] v@[i]@ == rule_title_of(
                    self.rules@[i].from@,
                    self.rules@[i].to@,
                ),
    {
        let mut v: Vec<String> = Vec::new();
        let mut i: usize = 0;
        while i < self.rules.len()
            invariant
                i <= self.rules@.len(),
                v@.len() == i,
                forall|j: int|
                    0 <= j < i ==> #[trigger] v@[j]@ == rule_title_of(
                        self.rules@[j].from@,
                        self.rules@[j].to@,
                    ),
            decreases self.rules@.len() - i,
        {
            v.push(rule_title(&self.rules[i]));
            i = i + 1;
        }
        v
    }
}

/// The title of a replacement row: "heard → replacement", or
/// "New replacement" while both sides are blank.
pub open spec fn rule_title_of(from: Seq<char>, to: Seq<char>) -> Seq<char> {
    if !has_non_ws(from) && !has_non_ws(to) {
        "New replacement"@
    } else {
        from + " → "@ + to
    }
}

/// The title of a replacement row.
pub fn rule_title(rule: &DictReplacement) -> (s: String)
    ensures
        s@ == rule_title_of(rule.from@, rule.to@),
{
    if is_blank(rule.from.as_str()) && is_blank(rule.to.as_str()) {
        owned("New replacement")
    } else {
        let mut s = owned(rule.from.as_str());
        push_str(&mut s, " → ");
        push_str(&mut s, rule.to.as_str());
        s
    }
}

/// A new, empty rule as "Add" creates it.
pub fn new_rule() -> (r: DictReplacement)
    ensures
        r.from@.len() == 0,
        r.to@.len() == 0,
        !r.whole_word,
        !r.case_sensitive,
{
    DictReplacement { from: String::new(), to: String::new(), whole_word: false, case_sensitive: false }
}

/// Remove rule `idx` (an index past the end leaves the rules alone).
/// Returns whether a rule was removed.
pub fn remove_rule(rules: &mut Vec<DictReplacement>, idx: usize) -> (removed: bool)
    ensures
        removed == (idx < old(rules)@.len()),
        removed ==> final(rules)@ == old(rules)@.remove(idx as int),
        !removed ==> final(rules)@ == old(rules)@,
{
    if idx < rules.len() {
        rules.remove(idx);
        true
    } else {
        false
    }
}

} // verus!
