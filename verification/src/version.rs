//! Version comparison for the startup update check.
//!
//! The network query itself lives outside the library; this module decides,
//! from the release tag it returned and the running version, whether a newer
//! version is available.

use vstd::prelude::*;
use crate::text::push_char;

verus! {

/// Result of a successful version check.
#[derive(Debug, Clone)]
pub struct UpdateInfo {
    /// Latest version string from the release tag (e.g. "1.2.0").
    pub latest_version: String,
}

/// An ASCII decimal digit.
pub open spec fn is_digit(c: char) -> bool {
    48 <= (c as u32) <= 57
}

pub open spec fn digit_val(c: char) -> nat {
    ((c as u32) - 48) as nat
}

/// Numeric value of a sequence of digits (0 for the empty sequence).
pub open spec fn digits_value(d: Seq<char>) -> nat
    decreases d.len(),
{
    if d.len() == 0 {
        0
    } else {
        digits_value(d.drop_last()) * 10 + digit_val(d.last())
    }
}

/// Length of the longest prefix made of ASCII digits.
pub open spec fn digit_prefix_len(p: Seq<char>) -> nat
    decreases p.len(),
{
    if p.len() == 0 || !is_digit(p[0]) {
        0
    } else {
        1 + digit_prefix_len(p.drop_first())
    }
}

/// Value of one dot-separated part: its leading digits read as a `u64`, with
/// any suffix (e.g. "0-beta", "1+build") dropped; 0 when there are no leading
/// digits or they do not fit in a `u64`.
pub open spec fn part_value(p: Seq<char>) -> u64 {
    let v = digits_value(p.take(digit_prefix_len(p) as int));
    if v <= u64::MAX {
        v as u64
    } else {
        0
    }
}

/// The parts of `s` between '.' separators (one part for a string without dots).
pub open spec fn split_dots(s: Seq<char>) -> Seq<Seq<char>>
    decreases s.len(),
{
    if s.len() == 0 {
        seq![Seq::<char>::empty()]
    } else {
        let p = split_dots(s.drop_last());
        if s.last() == '.' {
            p.push(Seq::<char>::empty())
        } else {
            p.update(p.len() - 1, p.last().push(s.last()))
        }
    }
}

/// The numeric components of a version string.
pub open spec fn components(s: Seq<char>) -> Seq<u64> {
    split_dots(s).map_values(|p: Seq<char>| part_value(p))
}

/// Component `j`, with missing components read as 0.
pub open spec fn comp(v: Seq<u64>, j: int) -> u64 {
    if 0 <= j < v.len() {
        v[j]
    } else {
        0
    }
}

/// `r` is strictly greater than `l` in the lexicographic order of components,
/// the shorter one padded with zeros.
pub open spec fn newer_components(r: Seq<u64>, l: Seq<u64>) -> bool {
    exists|k: int|
        0 <= k && (forall|j: int| 0 <= j < k ==> comp(r, j) == comp(l, j)) && comp(r, k) > comp(
            l,
            k,
        )
}

/// `remote` is strictly newer than `local`.
pub open spec fn newer(remote: Seq<char>, local: Seq<char>) -> bool {
    newer_components(components(remote), components(local))
}

/// The two versions have equal components once padded with zeros.
pub open spec fn same_version(a: Seq<char>, b: Seq<char>) -> bool {
    forall|j: int| 0 <= j ==> comp(components(a), j) == comp(components(b), j)
}

proof fn lemma_split_nonempty(s: Seq<char>)
    ensures
        split_dots(s).len() >= 1,
    decreases s.len(),
{
    if s.len() > 0 {
        lemma_split_nonempty(s.drop_last());
    }
}

proof fn lemma_prefix_len_bound(p: Seq<char>)
    ensures
        digit_prefix_len(p) <= p.len(),
    decreases p.len(),
{
    if p.len() > 0 && is_digit(p[0]) {
        lemma_prefix_len_bound(p.drop_first());
    }
}

proof fn lemma_prefix_len_push(p: Seq<char>, c: char)
    ensures
        digit_prefix_len(p.push(c)) == if digit_prefix_len(p) == p.len() && is_digit(c) {
            p.len() + 1
        } else {
            digit_prefix_len(p)
        },
    decreases p.len(),
{
    lemma_prefix_len_bound(p);
    let q = p.push(c);
    if p.len() == 0 {
        assert(q.drop_first() == Seq::<char>::empty());
        assert(digit_prefix_len(q.drop_first()) == 0);
        assert(q[0] == c);
    } else {
        assert(q[0] == p[0]);
        assert(q.drop_first() == p.drop_first().push(c));
        if is_digit(p[0]) {
            lemma_prefix_len_push(p.drop_first(), c);
            assert(digit_prefix_len(q) == 1 + digit_prefix_len(q.drop_first()));
            assert(digit_prefix_len(p) == 1 + digit_prefix_len(p.drop_first()));
        } else {
            assert(digit_prefix_len(q) == 0);
        }
    }
}

proof fn lemma_digits_value_mono(d: Seq<char>, c: char)
    ensures
        digits_value(d.push(c)) == digits_value(d) * 10 + digit_val(c),
        digits_value(d.push(c)) >= digits_value(d),
{
    assert(d.push(c).drop_last() == d);
}

/// The number of leading 'v' characters.
pub open spec fn leading_count(s: Seq<char>, c: char) -> nat
    decreases s.len(),
{
    if s.len() == 0 || s[0] != c {
        0
    } else {
        1 + leading_count(s.drop_first(), c)
    }
}

/// `str::trim_start_matches(c)`.
pub open spec fn trim_leading(s: Seq<char>, c: char) -> Seq<char> {
    s.skip(leading_count(s, c) as int)
}

/// The version named by a release tag: leading 'v's, then leading 'V's, removed.
pub open spec fn tag_version(tag: Seq<char>) -> Seq<char> {
    trim_leading(trim_leading(tag, 'v'), 'V')
}

proof fn lemma_leading_count(s: Seq<char>, c: char, i: int)
    requires
        0 <= i <= s.len(),
        forall|j: int| 0 <= j < i ==> s[j] == c,
        i == s.len() || s[i] != c,
    ensures
        leading_count(s, c) == i,
    decreases i,
{
    if i > 0 {
        assert(s[0] == c);
        lemma_leading_count(s.drop_first(), c, i - 1);
    }
}

fn trim_start(chars: &Vec<char>, c: char) -> (r: Vec<char>)
    ensures
        r@ == trim_leading(chars@, c),
{
    let mut i: usize = 0;
    while i < chars.len() && chars[i] == c
        invariant
            i <= chars.len(),
            forall|j: int| 0 <= j < i ==> chars@[j] == c,
        decreases chars.len() - i,
    {
        i = i + 1;
    }
    proof {
        lemma_leading_count(chars@, c, i as int);
    }
    let mut r: Vec<char> = Vec::new();
    let mut k: usize = i;
    while k < chars.len()
        invariant
            i <= k <= chars.len(),
            r@ == chars@.subrange(i as int, k as int),
        decreases chars.len() - k,
    {
        r.push(chars[k]);
        assert(chars@.subrange(i as int, k + 1) == chars@.subrange(i as int, k as int).push(
            chars@[k as int],
        ));
        k = k + 1;
    }
    r
}

/// The version named by a release tag (e.g. "v1.2.0" names "1.2.0").
pub fn release_version(tag: &str) -> (v: String)
    ensures
        v@ == tag_version(tag@),
{
    let chars = crate::text::chars_of(tag);
    let a = trim_start(&chars, 'v');
    let b = trim_start(&a, 'V');
    let mut s = String::new();
    let mut i: usize = 0;
    while i < b.len()
        invariant
            i <= b.len(),
            s@ == b@.take(i as int),
        decreases b.len() - i,
    {
        push_char(&mut s, b[i]);
        assert(b@.take(i + 1) == b@.take(i as int).push(b@[i as int]));
        i = i + 1;
    }
    assert(b@.take(i as int) == b@);
    s
}

/// The numeric components of a version string.
pub fn parse_components(s: &str) -> (v: Vec<u64>)
    ensures
        v@ == components(s@),
{
    let chars = crate::text::chars_of(s);
    let mut comps: Vec<u64> = Vec::new();
    let mut cur: u64 = 0;
    let mut overflow = false;
    let mut in_prefix = true;
    let mut i: usize = 0;
    proof {
        assert(chars@.take(0) == Seq::<char>::empty());
        assert(split_dots(Seq::<char>::empty()).last() == Seq::<char>::empty());
        assert(split_dots(Seq::<char>::empty()).drop_last() == Seq::<Seq<char>>::empty());
        assert(Seq::<char>::empty().take(0) == Seq::<char>::empty());
    }
    while i < chars.len()
        invariant
            i <= chars.len(),
            chars@ == s@,
            split_dots(chars@.take(i as int)).len() >= 1,
            comps@ == split_dots(chars@.take(i as int)).drop_last().map_values(
                |p: Seq<char>| part_value(p),
            ),
            ({
                let last = split_dots(chars@.take(i as int)).last();
                let v = digits_value(last.take(digit_prefix_len(last) as int));
                &&& in_prefix == (digit_prefix_len(last) == last.len())
                &&& overflow == (v > u64::MAX)
                &&& !overflow ==> cur == v
            }),
        decreases chars.len() - i,
    {
        let c = chars[i];
        let ghost pre = chars@.take(i as int);
        let ghost post = chars@.take(i + 1);
        let ghost parts = split_dots(pre);
        let ghost last = parts.last();
        proof {
            assert(post.drop_last() == pre);
            assert(post.last() == c);
            lemma_prefix_len_bound(last);
        }
        if c == '.' {
            let value = if overflow { 0 } else { cur };
            comps.push(value);
            cur = 0;
            overflow = false;
            in_prefix = true;
            proof {
                assert(split_dots(post) == parts.push(Seq::<char>::empty()));
                assert(split_dots(post).drop_last() == parts);
                assert(parts == parts.drop_last().push(last));
                assert(comps@ == parts.map_values(|p: Seq<char>| part_value(p)));
                assert(Seq::<char>::empty().take(0) == Seq::<char>::empty());
            }
        } else {
            let ghost nl = last.push(c);
            proof {
                assert(split_dots(post) == parts.update(parts.len() - 1, nl));
                assert(split_dots(post).drop_last() == parts.drop_last());
                assert(split_dots(post).last() == nl);
                lemma_prefix_len_push(last, c);
                lemma_prefix_len_bound(nl);
            }
            let u = c as u32;
            if in_prefix && 48 <= u && u <= 57 {
                proof {
                    assert(nl.take(digit_prefix_len(nl) as int) == nl);
                    assert(last.take(digit_prefix_len(last) as int) == last);
                    lemma_digits_value_mono(last, c);
                }
                if !overflow {
                    let nv: u128 = (cur as u128) * 10 + ((u - 48) as u128);
                    if nv > 0xFFFF_FFFF_FFFF_FFFFu128 {
                        overflow = true;
                    } else {
                        cur = nv as u64;
                    }
                }
            } else {
                in_prefix = false;
                proof {
                    assert(nl.take(digit_prefix_len(nl) as int) == last.take(
                        digit_prefix_len(last) as int,
                    ));
                }
            }
        }
        i = i + 1;
    }
    let value = if overflow { 0 } else { cur };
    comps.push(value);
    proof {
        let parts = split_dots(chars@.take(i as int));
        assert(chars@.take(i as int) == s@);
        assert(parts == parts.drop_last().push(parts.last()));
        assert(comps@ == parts.map_values(|p: Seq<char>| part_value(p)));
    }
    comps
}

fn get_or_zero(v: &Vec<u64>, j: usize) -> (x: u64)
    ensures
        x == comp(v@, j as int),
{
    if j < v.len() {
        v[j]
    } else {
        0
    }
}

/// Whether `remote` names a strictly newer version than `local`: the
/// dot-separated numeric components are compared left to right, missing
/// components counting as 0.
pub fn is_newer(remote: &str, local: &str) -> (b: bool)
    ensures
        b == newer(remote@, local@),
{
    let r = parse_components(remote);
    let l = parse_components(local);
    let max_len = if r.len() > l.len() {
        r.len()
    } else {
        l.len()
    };
    let mut i: usize = 0;
    while i < max_len
        invariant
            i <= max_len,
            max_len == if r.len() > l.len() {
                r.len()
            } else {
                l.len()
            },
            r@ == components(remote@),
            l@ == components(local@),
            forall|j: int| 0 <= j < i ==> comp(r@, j) == comp(l@, j),
        decreases max_len - i,
    {
        let rv = get_or_zero(&r, i);
        let lv = get_or_zero(&l, i);
        if rv > lv {
            return true;
        }
        if rv < lv {
            assert forall|k: int|
                0 <= k && (forall|j: int| 0 <= j < k ==> comp(r@, j) == comp(l@, j)) implies !(
            comp(r@, k) > comp(l@, k)) by {
                if k > i {
                    assert(comp(r@, i as int) == comp(l@, i as int));
                }
            }
            return false;
        }
        i = i + 1;
    }
    assert forall|k: int|
        0 <= k && (forall|j: int| 0 <= j < k ==> comp(r@, j) == comp(l@, j)) implies !(comp(r@, k)
        > comp(l@, k)) by {
        if k >= i {
            assert(comp(r@, k) == 0 && comp(l@, k) == 0);
        }
    }
    false
}

/// Decide, from the tag of the latest published release and the running
/// version, whether to announce an update.
pub fn update_for_release(tag_name: &str, current_version: &str) -> (r: Option<UpdateInfo>)
    ensures
        r is Some <==> newer(tag_version(tag_name@), current_version@),
        r matches Some(info) ==> info.latest_version@ == tag_version(tag_name@),
{
    let latest = release_version(tag_name);
    if is_newer(latest.as_str(), current_version) {
        Some(UpdateInfo { latest_version: latest })
    } else {
        None
    }
}

// ---------------------------------------------------------------------------
// Laws
// ---------------------------------------------------------------------------

/// No version is newer than itself.
pub proof fn law_newer_irreflexive(a: Seq<char>)
    ensures
        !newer(a, a),
{
}

/// Of two versions, at most one is newer than the other.
pub proof fn law_newer_asymmetric(a: Seq<char>, b: Seq<char>)
    ensures
        !(newer(a, b) && newer(b, a)),
{
    if newer(a, b) && newer(b, a) {
        let ca = components(a);
        let cb = components(b);
        let k1 = choose|k: int|
            0 <= k && (forall|j: int| 0 <= j < k ==> comp(ca, j) == comp(cb, j)) && comp(ca, k)
                > comp(cb, k);
        let k2 = choose|k: int|
            0 <= k && (forall|j: int| 0 <= j < k ==> comp(cb, j) == comp(ca, j)) && comp(cb, k)
                > comp(ca, k);
        if k1 < k2 {
            assert(comp(cb, k1) == comp(ca, k1));
        } else if k2 < k1 {
            assert(comp(ca, k2) == comp(cb, k2));
        }
    }
}

/// "Newer" is transitive.
pub proof fn law_newer_transitive(a: Seq<char>, b: Seq<char>, c: Seq<char>)
    requires
        newer(a, b),
        newer(b, c),
    ensures
        newer(a, c),
{
    let ca = components(a);
    let cb = components(b);
    let cc = components(c);
    let k1 = choose|k: int|
        0 <= k && (forall|j: int| 0 <= j < k ==> comp(ca, j) == comp(cb, j)) && comp(ca, k) > comp(
            cb,
            k,
        );
    let k2 = choose|k: int|
        0 <= k && (forall|j: int| 0 <= j < k ==> comp(cb, j) == comp(cc, j)) && comp(cb, k) > comp(
            cc,
            k,
        );
    let k = if k1 < k2 {
        k1
    } else {
        k2
    };
    assert forall|j: int| 0 <= j < k implies comp(ca, j) == comp(cc, j) by {
        assert(comp(ca, j) == comp(cb, j));
        assert(comp(cb, j) == comp(cc, j));
    }
    if k1 < k2 {
        assert(comp(cb, k) == comp(cc, k));
    } else if k2 < k1 {
        assert(comp(ca, k) == comp(cb, k));
    }
    assert(0 <= k && (forall|j: int| 0 <= j < k ==> comp(ca, j) == comp(cc, j)) && comp(ca, k)
        > comp(cc, k));
}

/// Versions with equal components (padding with zeros, so "1.2" and "1.2.0")
/// are never newer than one another, and are interchangeable on either side.
pub proof fn law_same_version_not_newer(a: Seq<char>, b: Seq<char>, c: Seq<char>)
    requires
        same_version(a, b),
    ensures
        !newer(a, b),
        !newer(b, a),
        newer(a, c) == newer(b, c),
        newer(c, a) == newer(c, b),
{
    let ca = components(a);
    let cb = components(b);
    let cc = components(c);
    assert(forall|j: int| 0 <= j ==> comp(ca, j) == comp(cb, j));
    if newer(a, c) {
        let k = choose|k: int|
            0 <= k && (forall|j: int| 0 <= j < k ==> comp(ca, j) == comp(cc, j)) && comp(ca, k)
                > comp(cc, k);
        assert(forall|j: int| 0 <= j < k ==> comp(cb, j) == comp(cc, j));
        assert(comp(cb, k) > comp(cc, k));
    }
    if newer(b, c) {
        let k = choose|k: int|
            0 <= k && (forall|j: int| 0 <= j < k ==> comp(cb, j) == comp(cc, j)) && comp(cb, k)
                > comp(cc, k);
        assert(forall|j: int| 0 <= j < k ==> comp(ca, j) == comp(cc, j));
        assert(comp(ca, k) > comp(cc, k));
    }
    if newer(c, a) {
        let k = choose|k: int|
            0 <= k && (forall|j: int| 0 <= j < k ==> comp(cc, j) == comp(ca, j)) && comp(cc, k)
                > comp(ca, k);
        assert(forall|j: int| 0 <= j < k ==> comp(cc, j) == comp(cb, j));
        assert(comp(cc, k) > comp(cb, k));
    }
    if newer(c, b) {
        let k = choose|k: int|
            0 <= k && (forall|j: int| 0 <= j < k ==> comp(cc, j) == comp(cb, j)) && comp(cc, k)
                > comp(cb, k);
        assert(forall|j: int| 0 <= j < k ==> comp(cc, j) == comp(ca, j));
        assert(comp(cc, k) > comp(ca, k));
    }
}

/// Any two versions are either the same or one is newer than the other.
pub proof fn law_versions_total(a: Seq<char>, b: Seq<char>)
    ensures
        same_version(a, b) || newer(a, b) || newer(b, a),
{
    if !same_version(a, b) {
        let ca = components(a);
        let cb = components(b);
        let w = choose|j: int| 0 <= j && comp(ca, j) != comp(cb, j);
        lemma_first_difference(ca, cb, w);
    }
}

proof fn lemma_first_difference(ca: Seq<u64>, cb: Seq<u64>, w: int)
    requires
        0 <= w,
        comp(ca, w) != comp(cb, w),
    ensures
        newer_components(ca, cb) || newer_components(cb, ca),
    decreases w,
{
    if exists|j: int| 0 <= j < w && comp(ca, j) != comp(cb, j) {
        let j = choose|j: int| 0 <= j < w && comp(ca, j) != comp(cb, j);
        lemma_first_difference(ca, cb, j);
    } else {
        if comp(ca, w) > comp(cb, w) {
            assert(forall|j: int| 0 <= j < w ==> comp(ca, j) == comp(cb, j));
        } else {
            assert(forall|j: int| 0 <= j < w ==> comp(cb, j) == comp(ca, j));
        }
    }
}

} // verus!
