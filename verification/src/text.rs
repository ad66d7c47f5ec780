//! Character-level building blocks shared by the rest of the library:
//! Unicode whitespace, word counting, decimal rendering and string assembly.

use vstd::prelude::*;

verus! {

/// The Unicode `White_Space` property, the set that `char::is_whitespace` tests.
pub open spec fn is_ws(c: char) -> bool {
    let u = c as u32;
    ||| 0x09 <= u <= 0x0D
    ||| u == 0x20
    ||| u == 0x85
    ||| u == 0xA0
    ||| u == 0x1680
    ||| 0x2000 <= u <= 0x200A
    ||| u == 0x2028
    ||| u == 0x2029
    ||| u == 0x202F
    ||| u == 0x205F
    ||| u == 0x3000
}

/// Executable Unicode whitespace test.
pub fn is_whitespace(c: char) -> (b: bool)
    ensures
        b == is_ws(c),
{
    let u = c as u32;
    (0x09 <= u && u <= 0x0D) || u == 0x20 || u == 0x85 || u == 0xA0 || u == 0x1680 || (0x2000
        <= u && u <= 0x200A) || u == 0x2028 || u == 0x2029 || u == 0x202F || u == 0x205F || u
        == 0x3000
}

/// Whether position `i` of `s` starts a word: a non-whitespace character
/// that is first or follows whitespace.
pub open spec fn starts_word(s: Seq<char>, i: int) -> bool {
    &&& 0 <= i < s.len()
    &&& !is_ws(s[i])
    &&& (i == 0 || is_ws(s[i - 1]))
}

/// Number of maximal runs of non-whitespace characters, counted by their starts.
pub open spec fn word_count_of(s: Seq<char>) -> nat
    decreases s.len(),
{
    if s.len() == 0 {
        0
    } else {
        word_count_of(s.drop_last()) + if starts_word(s, s.len() - 1) {
            1nat
        } else {
            0nat
        }
    }
}

/// A word count never exceeds the number of characters.
pub proof fn lemma_word_count_bound(s: Seq<char>)
    ensures
        word_count_of(s) <= s.len(),
    decreases s.len(),
{
    if s.len() > 0 {
        lemma_word_count_bound(s.drop_last());
    }
}

/// A text counts no word exactly when it is all whitespace (or empty).
pub proof fn law_word_count_zero(s: Seq<char>)
    ensures
        word_count_of(s) == 0 <==> !has_non_ws(s),
    decreases s.len(),
{
    if s.len() > 0 {
        let p = s.drop_last();
        law_word_count_zero(p);
        let n = s.len() - 1;
        if word_count_of(s) == 0 {
            assert forall|i: int| 0 <= i < s.len() implies is_ws(s[i]) by {
                if i < n {
                    assert(p[i] == s[i]);
                } else if n > 0 {
                    assert(p[n - 1] == s[n - 1]);
                }
            }
        } else if !has_non_ws(s) {
            assert forall|i: int| 0 <= i < p.len() implies is_ws(p[i]) by {
                assert(p[i] == s[i]);
            }
            assert(is_ws(s[n]));
        }
    }
}

/// Joining two texts with a whitespace character between them adds up
/// their word counts: no word runs across the separator.
pub proof fn law_word_count_concat(a: Seq<char>, w: char, b: Seq<char>)
    requires
        is_ws(w),
    ensures
        word_count_of(a + seq![w] + b) == word_count_of(a) + word_count_of(b),
    decreases b.len(),
{
    let s = a + seq![w] + b;
    if b.len() == 0 {
        assert(s.drop_last() =~= a);
    } else {
        let b1 = b.drop_last();
        law_word_count_concat(a, w, b1);
        assert(s.drop_last() =~= a + seq![w] + b1);
        let n = s.len() - 1;
        assert(s[n] == b[b.len() - 1]);
        if b.len() > 1 {
            assert(s[n - 1] == b[b.len() - 2]);
        } else {
            assert(s[n - 1] == w);
        }
        assert(starts_word(s, n) == starts_word(b, b.len() - 1));
    }
}

/// Unicode-aware word count (whitespace-separated tokens).
pub fn word_count(text: &str) -> (n: usize)
    ensures
        n == word_count_of(text@),
{
    let len = text.unicode_len();
    let mut n: usize = 0;
    let mut idx: usize = 0;
    let mut prev_ws = true;
    for c in it: text.chars()
        invariant
            it.seq() == text@,
            idx == it.index(),
            len == text@.len(),
            idx <= len,
            n == word_count_of(text@.take(idx as int)),
            n <= idx,
            prev_ws == (idx == 0 || is_ws(text@[idx - 1])),
    {
        let ghost pre = text@.take(idx + 1);
        assert(pre.drop_last() == text@.take(idx as int));
        assert(pre[idx as int] == c);
        let ws = is_whitespace(c);
        assert(starts_word(pre, idx as int) == (!ws && prev_ws)) by {
            if idx > 0 {
                assert(pre[idx - 1] == text@[idx - 1]);
            }
        }
        if !ws && prev_ws {
            n = n + 1;
        }
        prev_ws = ws;
        idx = idx + 1;
    }
    assert(text@.take(idx as int) == text@);
    n
}

/// The decimal digit character for `d < 10`.
pub open spec fn digit_char(d: nat) -> char {
    if d == 0 {
        '0'
    } else if d == 1 {
        '1'
    } else if d == 2 {
        '2'
    } else if d == 3 {
        '3'
    } else if d == 4 {
        '4'
    } else if d == 5 {
        '5'
    } else if d == 6 {
        '6'
    } else if d == 7 {
        '7'
    } else if d == 8 {
        '8'
    } else {
        '9'
    }
}

/// Each digit is written with its own numeral: the character's code is
/// that of '0' plus the digit's value.
pub proof fn law_digit_numerals(d: nat)
    requires
        d < 10,
    ensures
        digit_char(d) as u32 == '0' as u32 + d,
{
}

/// Decimal rendering of a natural number, without leading zeros.
pub open spec fn decimal(n: nat) -> Seq<char>
    decreases n,
{
    if n < 10 {
        seq![digit_char(n)]
    } else {
        decimal(n / 10).push(digit_char(n % 10))
    }
}

/// Decimal rendering padded with zeros on the left to at least two characters.
pub open spec fn decimal2(n: nat) -> Seq<char> {
    if n < 10 {
        seq!['0', digit_char(n)]
    } else {
        decimal(n)
    }
}

fn digit(d: u64) -> (c: char)
    requires
        d < 10,
    ensures
        c == digit_char(d as nat),
{
    if d == 0 {
        '0'
    } else if d == 1 {
        '1'
    } else if d == 2 {
        '2'
    } else if d == 3 {
        '3'
    } else if d == 4 {
        '4'
    } else if d == 5 {
        '5'
    } else if d == 6 {
        '6'
    } else if d == 7 {
        '7'
    } else if d == 8 {
        '8'
    } else {
        '9'
    }
}

/// Appends one character to a string (`String::push`).
#[verifier::external_body]
pub(crate) fn push_char(s: &mut String, c: char)
    ensures
        final(s)@ == old(s)@.push(c),
{
    s.push(c)
}

/// Appends a string slice.
pub fn push_str(s: &mut String, t: &str)
    ensures
        final(s)@ == old(s)@ + t@,
{
    s.append(t);
}

/// Appends the decimal rendering of `n`.
pub fn push_decimal(s: &mut String, n: u64)
    ensures
        final(s)@ == old(s)@ + decimal(n as nat),
    decreases n,
{
    if n < 10 {
        push_char(s, digit(n));
        assert(seq![digit_char(n as nat)] == Seq::<char>::empty().push(digit_char(n as nat)));
    } else {
        push_decimal(s, n / 10);
        push_char(s, digit(n % 10));
    }
}

/// Appends `n` padded with a zero to two characters when it is below ten.
pub fn push_decimal2(s: &mut String, n: u64)
    ensures
        final(s)@ == old(s)@ + decimal2(n as nat),
{
    if n < 10 {
        push_char(s, '0');
        push_char(s, digit(n));
    } else {
        push_decimal(s, n);
    }
}

/// The decimal rendering of `n` as a fresh string.
pub fn decimal_string(n: u64) -> (s: String)
    ensures
        s@ == decimal(n as nat),
{
    let mut s = String::new();
    push_decimal(&mut s, n);
    s
}

/// A fresh copy of a string slice.
pub fn owned(t: &str) -> (s: String)
    ensures
        s@ == t@,
{
    t.to_owned()
}

/// Text equality of two string slices.
pub fn same(a: &str, b: &str) -> (r: bool)
    ensures
        r == (a@ == b@),
{
    owned(a) == owned(b)
}

/// Whether `needle` occurs at position `i` of `hay`.
pub open spec fn occurs_at(hay: Seq<char>, needle: Seq<char>, i: int) -> bool {
    0 <= i && i + needle.len() <= hay.len() && hay.subrange(i, i + needle.len()) == needle
}

/// Whether `needle` occurs anywhere in `hay` (the empty needle always does).
pub open spec fn contains_seq(hay: Seq<char>, needle: Seq<char>) -> bool {
    exists|i: int| occurs_at(hay, needle, i)
}

/// Collects the characters of a string slice.
pub fn chars_of(t: &str) -> (v: Vec<char>)
    ensures
        v@ == t@,
{
    let len = t.unicode_len();
    let mut v: Vec<char> = Vec::new();
    for c in it: t.chars()
        invariant
            it.seq() == t@,
            v@ == t@.take(it.index()),
            len == t@.len(),
            v.len() <= len,
    {
        assert(t@.take(v.len() + 1) == t@.take(v.len() as int).push(c));
        v.push(c);
    }
    assert(t@.take(v.len() as int) == t@);
    v
}

/// Substring search.
pub fn contains(hay: &str, needle: &str) -> (b: bool)
    ensures
        b == contains_seq(hay@, needle@),
{
    let h = chars_of(hay);
    let nd = chars_of(needle);
    if nd.len() > h.len() {
        assert forall|i: int| !occurs_at(hay@, needle@, i) by {}
        return false;
    }
    if nd.len() == 0 {
        assert(hay@.subrange(0, 0) == needle@);
        assert(occurs_at(hay@, needle@, 0));
        return true;
    }
    let mut i: usize = 0;
    while i <= h.len() - nd.len()
        invariant
            h@ == hay@,
            nd@ == needle@,
            1 <= nd.len() <= h.len(),
            i <= h.len() - nd.len() + 1,
            forall|j: int| 0 <= j < i ==> !occurs_at(hay@, needle@, j),
        decreases h.len() - nd.len() + 1 - i,
    {
        let mut k: usize = 0;
        let mut ok = true;
        while k < nd.len()
            invariant
                h@ == hay@,
                nd@ == needle@,
                i + nd.len() <= h.len(),
                k <= nd.len(),
                ok ==> forall|m: int| 0 <= m < k ==> h@[i + m] == nd@[m],
                !ok ==> !occurs_at(hay@, needle@, i as int),
            decreases nd.len() - k,
        {
            if ok && h[i + k] != nd[k] {
                ok = false;
                assert(hay@.subrange(i as int, i + needle@.len())[k as int] != needle@[k as int]);
            }
            k = k + 1;
        }
        if ok {
            assert(hay@.subrange(i as int, i + needle@.len()) == needle@);
            assert(occurs_at(hay@, needle@, i as int));
            return true;
        }
        i = i + 1;
    }
    assert forall|j: int| !occurs_at(hay@, needle@, j) by {}
    false
}

/// Lowercase mapping of a character sequence as `str::to_lowercase` performs it.
pub uninterp spec fn lowercase_of(s: Seq<char>) -> Seq<char>;

/// Full Unicode lowercasing (`str::to_lowercase`); its result is a function
/// of the text alone and is named `lowercase_of`.
#[verifier::external_body]
pub(crate) fn to_lowercase(s: &str) -> (r: String)
    ensures
        r@ == lowercase_of(s@),
{
    s.to_lowercase()
}

/// Whether `s` begins with `p`.
pub open spec fn has_prefix(s: Seq<char>, p: Seq<char>) -> bool {
    p.len() <= s.len() && s.subrange(0, p.len() as int) == p
}

/// `str::starts_with` for a string prefix.
pub fn starts_with(s: &str, p: &str) -> (b: bool)
    ensures
        b == has_prefix(s@, p@),
{
    let sv = chars_of(s);
    let pv = chars_of(p);
    if pv.len() > sv.len() {
        return false;
    }
    let mut i: usize = 0;
    while i < pv.len()
        invariant
            sv@ == s@,
            pv@ == p@,
            pv.len() <= sv.len(),
            i <= pv.len(),
            forall|j: int| 0 <= j < i ==> sv@[j] == pv@[j],
        decreases pv.len() - i,
    {
        if sv[i] != pv[i] {
            assert(s@.subrange(0, p@.len() as int)[i as int] != p@[i as int]);
            return false;
        }
        i = i + 1;
    }
    assert(s@.subrange(0, p@.len() as int) == p@);
    true
}

/// Number of whitespace characters at the start.
pub open spec fn lead_ws(s: Seq<char>) -> nat
    decreases s.len(),
{
    if s.len() == 0 {
        0
    } else if is_ws(s[0]) {
        1 + lead_ws(s.drop_first())
    } else {
        0
    }
}

/// Number of whitespace characters at the end.
pub open spec fn trail_ws(s: Seq<char>) -> nat
    decreases s.len(),
{
    if s.len() == 0 {
        0
    } else if is_ws(s.last()) {
        1 + trail_ws(s.drop_last())
    } else {
        0
    }
}

/// The text without leading and trailing whitespace (`str::trim`).
pub open spec fn trimmed(s: Seq<char>) -> Seq<char> {
    let a = lead_ws(s);
    if a >= s.len() {
        Seq::empty()
    } else {
        s.subrange(a as int, s.len() - trail_ws(s))
    }
}

proof fn lemma_lead_ws(s: Seq<char>)
    ensures
        lead_ws(s) <= s.len(),
        forall|k: int| 0 <= k < lead_ws(s) ==> is_ws(s[k]),
        lead_ws(s) < s.len() ==> !is_ws(s[lead_ws(s) as int]),
    decreases s.len(),
{
    if s.len() > 0 && is_ws(s[0]) {
        lemma_lead_ws(s.drop_first());
        assert forall|k: int| 0 <= k < lead_ws(s) implies is_ws(s[k]) by {
            if k > 0 {
                assert(s[k] == s.drop_first()[k - 1]);
            }
        }
    }
}

proof fn lemma_trail_ws(s: Seq<char>)
    ensures
        trail_ws(s) <= s.len(),
        forall|k: int| s.len() - trail_ws(s) <= k < s.len() ==> is_ws(s[k]),
        trail_ws(s) < s.len() ==> !is_ws(s[s.len() - 1 - trail_ws(s)]),
    decreases s.len(),
{
    if s.len() > 0 && is_ws(s.last()) {
        lemma_trail_ws(s.drop_last());
        assert forall|k: int| s.len() - trail_ws(s) <= k < s.len() implies is_ws(s[k]) by {
            if k < s.len() - 1 {
                assert(s[k] == s.drop_last()[k]);
            }
        }
        if trail_ws(s) < s.len() {
            assert(s[s.len() - 1 - trail_ws(s)] == s.drop_last()[s.drop_last().len() - 1 - trail_ws(
                s.drop_last(),
            )]);
        }
    }
}

/// A trimmed text is empty exactly when the text is blank; otherwise it
/// starts and ends with non-whitespace.
pub proof fn lemma_trimmed_shape(s: Seq<char>)
    ensures
        trimmed(s).len() > 0 <==> has_non_ws(s),
        trimmed(s).len() > 0 <==> has_non_ws(trimmed(s)),
        trimmed(s).len() > 0 ==> !is_ws(trimmed(s)[0]) && !is_ws(trimmed(s).last()),
{
    lemma_lead_ws(s);
    lemma_trail_ws(s);
    let a = lead_ws(s);
    let t = trail_ws(s);
    if a < s.len() {
        assert(a < s.len() - t) by {
            if a >= s.len() - t {
                assert(is_ws(s[a as int]));
            }
        }
        assert(trimmed(s)[0] == s[a as int]);
        assert(has_non_ws(s));
        assert(has_non_ws(trimmed(s)));
        assert(trimmed(s).last() == s[s.len() - 1 - t]);
    } else {
        assert forall|k: int| 0 <= k < s.len() implies is_ws(s[k]) by {}
    }
}

/// The characters `v[a..b]` as a string.
pub fn string_of_range(v: &Vec<char>, a: usize, b: usize) -> (s: String)
    requires
        a <= b <= v.len(),
    ensures
        s@ == v@.subrange(a as int, b as int),
{
    let mut s = String::new();
    let mut k: usize = a;
    while k < b
        invariant
            a <= k <= b,
            b <= v.len(),
            s@ == v@.subrange(a as int, k as int),
        decreases b - k,
    {
        push_char(&mut s, v[k]);
        assert(v@.subrange(a as int, k + 1) == v@.subrange(a as int, k as int).push(v@[k as int]));
        k = k + 1;
    }
    s
}

/// The bounds of `trimmed` within a character vector.
pub fn trim_bounds(v: &Vec<char>) -> (r: (usize, usize))
    ensures
        r.0 <= r.1 <= v.len(),
        v@.subrange(r.0 as int, r.1 as int) == trimmed(v@),
{
    let n = v.len();
    let mut i: usize = 0;
    assert(v@.subrange(0, n as int) =~= v@);
    while i < n && is_whitespace(v[i])
        invariant
            i <= n,
            n == v.len(),
            lead_ws(v@) == i + lead_ws(v@.subrange(i as int, n as int)),
        decreases n - i,
    {
        assert(v@.subrange(i as int, n as int).drop_first() =~= v@.subrange(i + 1, n as int));
        i = i + 1;
    }
    if i == n {
        assert(v@.subrange(n as int, n as int) =~= Seq::<char>::empty());
        return (n, n);
    }
    assert(v@.subrange(i as int, n as int)[0] == v@[i as int]);
    assert(lead_ws(v@) == i);
    assert(v@.subrange(0, n as int) =~= v@);
    let mut j: usize = n;
    while j > i && is_whitespace(v[j - 1])
        invariant
            i < n,
            i < j <= n,
            n == v.len(),
            !is_ws(v@[i as int]),
            trail_ws(v@) == (n - j) + trail_ws(v@.subrange(0, j as int)),
        decreases j,
    {
        assert(v@.subrange(0, j as int).drop_last() =~= v@.subrange(0, j - 1));
        j = j - 1;
    }
    assert(v@.subrange(0, j as int).last() == v@[j - 1]);
    assert(trail_ws(v@) == n - j);
    (i, j)
}

/// `str::trim` as a fresh string.
pub fn trim(t: &str) -> (s: String)
    ensures
        s@ == trimmed(t@),
{
    let v = chars_of(t);
    let (a, b) = trim_bounds(&v);
    string_of_range(&v, a, b)
}

/// Whether the sequence has a non-whitespace character.
pub open spec fn has_non_ws(s: Seq<char>) -> bool {
    exists|i: int| 0 <= i < s.len() && !is_ws(s[i])
}

/// `str::trim().is_empty()`: whether the text is blank.
pub fn is_blank(t: &str) -> (b: bool)
    ensures
        b == !has_non_ws(t@),
{
    let v = chars_of(t);
    let mut i: usize = 0;
    while i < v.len()
        invariant
            v@ == t@,
            i <= v.len(),
            forall|j: int| 0 <= j < i ==> is_ws(t@[j]),
        decreases v.len() - i,
    {
        if !is_whitespace(v[i]) {
            return false;
        }
        i = i + 1;
    }
    true
}

} // verus!
