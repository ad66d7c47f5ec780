//! GPU naming and detection rules: shortening a vendor's verbose device
//! name to "brand + marketing name", splitting brand from model, reading
//! `lspci` and `nvidia-smi` lines and DRM card names, and the GPU panel's
//! labels.

use vstd::prelude::*;
use crate::text::{
    lowercase_of, to_lowercase, contains, contains_seq, starts_with, has_prefix, trim, trimmed,
    chars_of, string_of_range, owned, push_str, occurs_at, same,
};

verus! {

/// A letter or digit: the characters that words are made of.
pub open spec fn is_word_char(c: char) -> bool {
    ('a' <= c && c <= 'z') || ('A' <= c && c <= 'Z') || ('0' <= c && c <= '9')
}

/// Whether `w` occurs in `s` at `i` as a whole word: no letter or digit
/// right before or right after it.
pub open spec fn word_at(s: Seq<char>, w: Seq<char>, i: int) -> bool {
    &&& occurs_at(s, w, i)
    &&& (i == 0 || !is_word_char(s[i - 1]))
    &&& (i + w.len() == s.len() || !is_word_char(s[i + w.len()]))
}

/// Whether `w` occurs in `s` as a whole word ("ati" in "[amd/ati]", not in
/// "corporation").
pub open spec fn has_word(s: Seq<char>, w: Seq<char>) -> bool {
    exists|i: int| word_at(s, w, i)
}

/// The manufacturer named by a lowercased device name. "ati" counts only as
/// a whole word: as letters inside a word ("corporation") it names nothing.
pub open spec fn gpu_vendor(lower: Seq<char>) -> Option<Seq<char>> {
    if contains_seq(lower, "nvidia"@) {
        Some("NVIDIA"@)
    } else if contains_seq(lower, "amd"@) || has_word(lower, "ati"@) || contains_seq(
        lower,
        "radeon"@,
    ) {
        Some("AMD"@)
    } else if contains_seq(lower, "intel"@) {
        Some("Intel"@)
    } else {
        None
    }
}

/// Position of the last `c` in `s` (-1 when absent).
pub open spec fn last_index(s: Seq<char>, c: char) -> int
    decreases s.len(),
{
    if s.len() == 0 {
        -1
    } else if s.last() == c {
        s.len() - 1
    } else {
        last_index(s.drop_last(), c)
    }
}

/// Position of the first `p` in `s` at or after `from` (-1 when absent).
pub open spec fn find_from(s: Seq<char>, p: Seq<char>, from: int) -> int
    decreases s.len() + 1 - from,
{
    if from < 0 || from + p.len() > s.len() {
        -1
    } else if occurs_at(s, p, from) {
        from
    } else {
        find_from(s, p, from + 1)
    }
}

/// A slash-separated list of names cut to its first two names.
pub open spec fn keep_two(s: Seq<char>) -> Seq<char> {
    let i1 = find_from(s, " / "@, 0);
    if i1 < 0 {
        s
    } else {
        let i2 = find_from(s, " / "@, i1 + 3);
        if i2 < 0 {
            s
        } else {
            s.subrange(0, i2)
        }
    }
}

/// The marketing name in a verbose device name: the text of the last
/// bracket pair, trimmed and cut to two names; none without a bracket pair.
pub open spec fn marketing(name: Seq<char>) -> Option<Seq<char>> {
    let start = last_index(name, '[');
    let end = last_index(name, ']');
    if start >= 0 && end >= 0 && start < end {
        Some(keep_two(trimmed(name.subrange(start + 1, end))))
    } else {
        None
    }
}

/// A marketing name prefixed with its manufacturer, unless (compared in
/// lowercase) it already starts with it.
pub open spec fn with_maker(
    mfg: Seq<char>,
    inner: Seq<char>,
    inner_lower: Seq<char>,
    mfg_lower: Seq<char>,
) -> Seq<char> {
    if has_prefix(inner_lower, mfg_lower) {
        inner
    } else {
        mfg + " "@ + inner
    }
}

/// A verbose device name shortened to manufacturer and marketing name: the
/// manufacturer named in it (see `gpu_vendor`), then the text of the last
/// bracket pair (cut to two names), prefixed with the manufacturer unless it
/// already starts with it. Names of unknown vendors, or without a bracket
/// pair, stay as they are.
pub open spec fn shortened_name(name: Seq<char>) -> Seq<char> {
    match gpu_vendor(lowercase_of(name)) {
        None => name,
        Some(mfg) => match marketing(name) {
            None => name,
            Some(inner) => with_maker(mfg, inner, lowercase_of(inner), lowercase_of(mfg)),
        },
    }
}

fn last_index_of(v: &Vec<char>, c: char) -> (r: Option<usize>)
    ensures
        match r {
            Some(i) => i as int == last_index(v@, c) && i < v.len(),
            None => last_index(v@, c) == -1,
        },
{
    let mut j: usize = v.len();
    assert(v@.subrange(0, v.len() as int) =~= v@);
    while j > 0
        invariant
            j <= v.len(),
            last_index(v@, c) == last_index(v@.subrange(0, j as int), c),
        decreases j,
    {
        assert(v@.subrange(0, j as int).last() == v@[j - 1]);
        if v[j - 1] == c {
            return Some(j - 1);
        }
        assert(v@.subrange(0, j as int).drop_last() =~= v@.subrange(0, j - 1));
        j = j - 1;
    }
    None
}

proof fn lemma_last_index_range(s: Seq<char>, c: char)
    ensures
        -1 <= last_index(s, c) < s.len(),
        last_index(s, c) >= 0 ==> s[last_index(s, c)] == c,
    decreases s.len(),
{
    if s.len() > 0 && s.last() != c {
        lemma_last_index_range(s.drop_last(), c);
    }
}

fn occurs(v: &Vec<char>, p: &Vec<char>, i: usize) -> (b: bool)
    requires
        i + p.len() <= v.len(),
    ensures
        b == occurs_at(v@, p@, i as int),
{
    let mut k: usize = 0;
    while k < p.len()
        invariant
            i + p.len() <= v.len(),
            k <= p.len(),
            forall|m: int| 0 <= m < k ==> v@[i + m] == p@[m],
        decreases p.len() - k,
    {
        if v[i + k] != p[k] {
            assert(v@.subrange(i as int, i + p@.len())[k as int] != p@[k as int]);
            return false;
        }
        k = k + 1;
    }
    assert(v@.subrange(i as int, i + p@.len()) =~= p@);
    true
}

fn find_after(v: &Vec<char>, p: &Vec<char>, from: usize) -> (r: Option<usize>)
    requires
        p.len() > 0,
    ensures
        match r {
            Some(i) => i as int == find_from(v@, p@, from as int) && i + p.len() <= v.len()
                && occurs_at(v@, p@, i as int) && from <= i,
            None => find_from(v@, p@, from as int) == -1,
        },
{
    let mut i: usize = from;
    while i <= v.len() && p.len() <= v.len() - i
        invariant
            p.len() > 0,
            from <= i,
            find_from(v@, p@, from as int) == find_from(v@, p@, i as int),
        decreases v.len() + 1 - i,
    {
        if occurs(v, p, i) {
            return Some(i);
        }
        i = i + 1;
    }
    None
}

/// Cut a slash-separated list of names to its first two names.
pub fn keep_two_names(s: &str) -> (r: String)
    ensures
        r@ == keep_two(s@),
{
    let v = chars_of(s);
    let mut sep: Vec<char> = Vec::new();
    sep.push(' ');
    sep.push('/');
    sep.push(' ');
    proof {
        reveal_strlit(" / ");
        assert(sep@ =~= " / "@);
    }
    match find_after(&v, &sep, 0) {
        None => owned(s),
        Some(i1) => match find_after(&v, &sep, i1 + 3) {
            None => owned(s),
            Some(i2) => string_of_range(&v, 0, i2),
        },
    }
}

fn is_word_char_exec(c: char) -> (b: bool)
    ensures
        b == is_word_char(c),
{
    (c >= 'a' && c <= 'z') || (c >= 'A' && c <= 'Z') || (c >= '0' && c <= '9')
}

/// Whole-word search of `w` in `v`.
fn contains_word(v: &Vec<char>, w: &Vec<char>) -> (b: bool)
    requires
        w.len() > 0,
    ensures
        b == has_word(v@, w@),
{
    if w.len() > v.len() {
        assert forall|j: int| !word_at(v@, w@, j) by {}
        return false;
    }
    let mut i: usize = 0;
    while i <= v.len() - w.len()
        invariant
            w.len() > 0,
            w.len() <= v.len(),
            i <= v.len() - w.len() + 1,
            forall|j: int| 0 <= j < i ==> !word_at(v@, w@, j),
        decreases v.len() - w.len() + 1 - i,
    {
        if occurs(v, w, i) {
            let before_ok = i == 0 || !is_word_char_exec(v[i - 1]);
            let after_ok = i + w.len() == v.len() || !is_word_char_exec(v[i + w.len()]);
            if before_ok && after_ok {
                assert(word_at(v@, w@, i as int));
                return true;
            }
        }
        i = i + 1;
    }
    assert forall|j: int| !word_at(v@, w@, j) by {
        if 0 <= j && j < i {
        }
    }
    false
}

/// The manufacturer named by an already lowercased device name.
pub fn vendor_from_lowercase(lower: &str) -> (m: Option<&'static str>)
    ensures
        match m {
            Some(s) => gpu_vendor(lower@) == Some(s@),
            None => gpu_vendor(lower@) is None,
        },
{
    let l = chars_of(lower);
    let ati = chars_of("ati");
    proof {
        reveal_strlit("ati");
    }
    if contains(lower, "nvidia") {
        Some("NVIDIA")
    } else if contains(lower, "amd") || contains_word(&l, &ati) || contains(lower, "radeon") {
        Some("AMD")
    } else if contains(lower, "intel") {
        Some("Intel")
    } else {
        None
    }
}

/// The marketing name in a verbose device name (the last bracket pair's
/// text, trimmed and cut to two names), if it has one.
pub fn marketing_name(name: &str) -> (r: Option<String>)
    ensures
        match r {
            Some(s) => marketing(name@) == Some(s@),
            None => marketing(name@) is None,
        },
{
    let v = chars_of(name);
    let start = last_index_of(&v, '[');
    let end = last_index_of(&v, ']');
    match (start, end) {
        (Some(a), Some(b)) => {
            if a < b {
                let raw = string_of_range(&v, a + 1, b);
                let t = trim(raw.as_str());
                Some(keep_two_names(t.as_str()))
            } else {
                None
            }
        },
        _ => None,
    }
}

/// Prefix a marketing name with its manufacturer unless it already starts
/// with it; `inner_lower` and `mfg_lower` are the two names lowercased.
pub fn with_manufacturer(mfg: &str, inner: &str, inner_lower: &str, mfg_lower: &str) -> (r: String)
    ensures
        r@ == with_maker(mfg@, inner@, inner_lower@, mfg_lower@),
{
    if starts_with(inner_lower, mfg_lower) {
        return owned(inner);
    }
    let mut out = owned(mfg);
    push_str(&mut out, " ");
    push_str(&mut out, inner);
    out
}

/// Shorten a verbose GPU name to manufacturer and model, e.g.
/// "NVIDIA Corporation GA106 [GeForce RTX 3060]" to "NVIDIA GeForce RTX 3060".
pub fn shorten_gpu_name(name: &str) -> (r: String)
    ensures
        r@ == shortened_name(name@),
{
    let lower = to_lowercase(name);
    let mfg = match vendor_from_lowercase(lower.as_str()) {
        None => {
            return owned(name);
        },
        Some(m) => m,
    };
    match marketing_name(name) {
        None => owned(name),
        Some(inner) => {
            let inner_lower = to_lowercase(inner.as_str());
            let mfg_lower = to_lowercase(mfg);
            with_manufacturer(mfg, inner.as_str(), inner_lower.as_str(), mfg_lower.as_str())
        },
    }
}

/// The public name of the shortening rule.
pub fn shorten_gpu_name_public(name: &str) -> (r: String)
    ensures
        r@ == shortened_name(name@),
{
    shorten_gpu_name(name)
}

/// A shortened name split into brand and model ("NVIDIA", "AMD" or
/// "Intel" followed by a space; any other name is all brand).
pub open spec fn brand_model(name: Seq<char>) -> (Seq<char>, Seq<char>) {
    if has_prefix(name, "NVIDIA "@) {
        ("NVIDIA"@, name.subrange(7, name.len() as int))
    } else if has_prefix(name, "AMD "@) {
        ("AMD"@, name.subrange(4, name.len() as int))
    } else if has_prefix(name, "Intel "@) {
        ("Intel"@, name.subrange(6, name.len() as int))
    } else {
        (name, Seq::empty())
    }
}

/// Split a shortened GPU name into brand and model.
pub fn split_gpu_brand_model(name: &str) -> (r: (String, String))
    ensures
        r.0@ == brand_model(name@).0,
        r.1@ == brand_model(name@).1,
{
    let v = chars_of(name);
    proof {
        reveal_strlit("NVIDIA ");
        reveal_strlit("AMD ");
        reveal_strlit("Intel ");
    }
    if starts_with(name, "NVIDIA ") {
        (owned("NVIDIA"), string_of_range(&v, 7, v.len()))
    } else if starts_with(name, "AMD ") {
        (owned("AMD"), string_of_range(&v, 4, v.len()))
    } else if starts_with(name, "Intel ") {
        (owned("Intel"), string_of_range(&v, 6, v.len()))
    } else {
        (owned(name), String::new())
    }
}

/// Whether a (lowercased) `lspci` line describes a display device.
pub open spec fn is_display_line(lower: Seq<char>) -> bool {
    contains_seq(lower, "vga"@) || contains_seq(lower, "3d controller"@) || contains_seq(
        lower,
        "display controller"@,
    )
}

/// The GPU name on an `lspci` line whose lowercase form is `lower`: for a
/// display device (and the vendor's name in it, when one is asked for), the
/// text after the first ": ", trimmed.
pub open spec fn lspci_name_lower(
    line: Seq<char>,
    lower: Seq<char>,
    vendor: Option<Seq<char>>,
) -> Option<Seq<char>> {
    let vendor_ok = match vendor {
        Some(v) => contains_seq(lower, v),
        None => true,
    };
    if is_display_line(lower) && vendor_ok {
        let idx = find_from(line, ": "@, 0);
        if idx >= 0 {
            Some(trimmed(line.subrange(idx + 2, line.len() as int)))
        } else {
            None
        }
    } else {
        None
    }
}

/// The GPU name on one `lspci` line.
pub open spec fn lspci_name(line: Seq<char>, vendor: Option<Seq<char>>) -> Option<Seq<char>> {
    lspci_name_lower(line, lowercase_of(line), vendor)
}

/// The GPU name on one `lspci` line, given the line and its lowercase form.
pub fn lspci_line_name_lowered(line: &str, lower: &str, vendor: Option<&str>) -> (r: Option<String>)
    ensures
        match r {
            Some(s) => lspci_name_lower(line@, lower@, match vendor {
                Some(v) => Some(v@),
                None => None,
            }) == Some(s@),
            None => lspci_name_lower(line@, lower@, match vendor {
                Some(v) => Some(v@),
                None => None,
            }) is None,
        },
{
    let display = contains(lower, "vga") || contains(lower, "3d controller") || contains(
        lower,
        "display controller",
    );
    let vendor_ok = match vendor {
        Some(v) => contains(lower, v),
        None => true,
    };
    if !(display && vendor_ok) {
        return None;
    }
    let v = chars_of(line);
    let mut sep: Vec<char> = Vec::new();
    sep.push(':');
    sep.push(' ');
    proof {
        reveal_strlit(": ");
        assert(sep@ =~= ": "@);
    }
    match find_after(&v, &sep, 0) {
        Some(idx) => {
            let rest = string_of_range(&v, idx + 2, v.len());
            Some(trim(rest.as_str()))
        },
        None => None,
    }
}

/// The GPU name on one `lspci` line, if the line names a display device.
pub fn lspci_line_name(line: &str, vendor: Option<&str>) -> (r: Option<String>)
    ensures
        match r {
            Some(s) => lspci_name(line@, match vendor {
                Some(v) => Some(v@),
                None => None,
            }) == Some(s@),
            None => lspci_name(line@, match vendor {
                Some(v) => Some(v@),
                None => None,
            }) is None,
        },
{
    let lower = to_lowercase(line);
    lspci_line_name_lowered(line, lower.as_str(), vendor)
}

/// The first display device named in `lspci` output lines.
pub fn first_gpu_name(lines: &[String], vendor: Option<&str>) -> (r: Option<String>)
    ensures
        match r {
            Some(s) => exists|i: int|
                0 <= i < lines@.len() && lspci_name(lines@[i]@, match vendor {
                    Some(v) => Some(v@),
                    None => None,
                }) == Some(s@) && forall|j: int|
                    0 <= j < i ==> lspci_name(#[trigger] lines@[j]@, match vendor {
                        Some(v) => Some(v@),
                        None => None,
                    }) is None,
            None => forall|j: int|
                0 <= j < lines@.len() ==> lspci_name(#[trigger] lines@[j]@, match vendor {
                    Some(v) => Some(v@),
                    None => None,
                }) is None,
        },
{
    let ghost vd = match vendor {
        Some(v) => Some(v@),
        None => None,
    };
    let mut i: usize = 0;
    while i < lines.len()
        invariant
            i <= lines@.len(),
            vd == match vendor {
                Some(v) => Some(v@),
                None => None,
            },
            forall|j: int| 0 <= j < i ==> lspci_name(#[trigger] lines@[j]@, vd) is None,
        decreases lines@.len() - i,
    {
        match lspci_line_name(lines[i].as_str(), vendor) {
            Some(s) => {
                return Some(s);
            },
            None => {},
        }
        i = i + 1;
    }
    None
}

/// Whether a DRM entry is a card itself (`card0`, not a connector such as
/// `card0-DP-1`).
pub open spec fn is_card_entry(name: Seq<char>) -> bool {
    has_prefix(name, "card"@) && !name.contains('-')
}

pub fn is_drm_card(name: &str) -> (b: bool)
    ensures
        b == is_card_entry(name@),
{
    if !starts_with(name, "card") {
        return false;
    }
    let v = chars_of(name);
    let mut i: usize = 0;
    while i < v.len()
        invariant
            v@ == name@,
            i <= v.len(),
            forall|j: int| 0 <= j < i ==> v@[j] != '-',
        decreases v.len() - i,
    {
        if v[i] == '-' {
            assert(name@[i as int] == '-');
            return false;
        }
        i = i + 1;
    }
    true
}

/// Whether a device's `uevent` text names the amdgpu driver.
pub fn uses_amdgpu(uevent: &str) -> (b: bool)
    ensures
        b == contains_seq(uevent@, "DRIVER=amdgpu"@),
{
    contains(uevent, "DRIVER=amdgpu")
}

/// The style class of a GPU status word.
pub open spec fn status_class_of(status: Seq<char>) -> Seq<char> {
    if status == "Available"@ || status == "Active"@ {
        "success"@
    } else if status == "Unavailable"@ || status == "Error"@ {
        "error"@
    } else {
        "dim-label"@
    }
}

pub fn status_class(status: &str) -> (c: &'static str)
    ensures
        c@ == status_class_of(status@),
{
    if same(status, "Available") || same(status, "Active") {
        "success"
    } else if same(status, "Unavailable") || same(status, "Error") {
        "error"
    } else {
        "dim-label"
    }
}

/// The labels of the GPU panel.
pub struct GpuStatusPanel {
    pub brand: String,
    pub model: String,
    pub status: String,
    pub status_class: &'static str,
    pub vram_text: String,
}

impl GpuStatusPanel {
    /// "Detecting…" until a probe reports.
    pub fn new() -> (p: Self)
        ensures
            p.brand@ == "Detecting…"@,
            p.model@.len() == 0,
            p.status@ == "N/A"@,
            p.status_class@ == "dim-label"@,
            p.vram_text@ == "0 / 0 GB"@,
    {
        GpuStatusPanel {
            brand: owned("Detecting…"),
            model: String::new(),
            status: owned("N/A"),
            status_class: "dim-label",
            vram_text: owned("0 / 0 GB"),
        }
    }

    /// Show a detected GPU: its shortened name split into brand and model,
    /// and its status word with the matching style.
    pub fn set_gpu_info(&mut self, name: &str, status: &str)
        ensures
            final(self).brand@ == brand_model(shortened_name(name@)).0,
            final(self).model@ == brand_model(shortened_name(name@)).1,
            final(self).status@ == status@,
            final(self).status_class@ == status_class_of(status@),
            final(self).vram_text@ == old(self).vram_text@,
    {
        let short = shorten_gpu_name(name);
        let (b, m) = split_gpu_brand_model(short.as_str());
        self.brand = b;
        self.model = m;
        self.status = owned(status);
        self.status_class = status_class(status);
    }

    /// Show the VRAM reading text.
    pub fn set_vram_text(&mut self, text: &str)
        ensures
            final(self).vram_text@ == text@,
            final(self).brand@ == old(self).brand@,
            final(self).model@ == old(self).model@,
            final(self).status@ == old(self).status@,
            final(self).status_class@ == old(self).status_class@,
    {
        self.vram_text = owned(text);
    }

    /// No GPU: CPU only.
    pub fn set_no_gpu(&mut self)
        ensures
            final(self).brand@ == "No GPU detected"@,
            final(self).model@.len() == 0,
            final(self).status@ == "CPU only"@,
            final(self).status_class@ == "dim-label"@,
            final(self).vram_text@ == "N/A"@,
    {
        self.brand = owned("No GPU detected");
        self.model = String::new();
        self.status = owned("CPU only");
        self.status_class = "dim-label";
        self.vram_text = owned("N/A");
    }
}

/// The first line of `nvidia-smi` name/driver/memory output, trimmed and
/// split at ", ": name, driver and the memory field, when there are at
/// least three fields.
pub open spec fn smi_fields(s: Seq<char>) -> Option<(Seq<char>, Seq<char>, Seq<char>)> {
    let t = trimmed(s);
    let i1 = find_from(t, ", "@, 0);
    if i1 < 0 {
        None
    } else {
        let i2 = find_from(t, ", "@, i1 + 2);
        if i2 < 0 {
            None
        } else {
            let i3 = find_from(t, ", "@, i2 + 2);
            let third_end = if i3 < 0 { t.len() as int } else { i3 };
            Some((t.subrange(0, i1), t.subrange(i1 + 2, i2), t.subrange(i2 + 2, third_end)))
        }
    }
}

/// Split `nvidia-smi` output into GPU name, driver version and the memory
/// text (megabytes, still to be parsed as a number).
pub fn parse_smi_output(stdout: &str) -> (r: Option<(String, String, String)>)
    ensures
        match r {
            Some(f) => smi_fields(stdout@) == Some((f.0@, f.1@, f.2@)),
            None => smi_fields(stdout@) is None,
        },
{
    let t = trim(stdout);
    let v = chars_of(t.as_str());
    let mut sep: Vec<char> = Vec::new();
    sep.push(',');
    sep.push(' ');
    proof {
        reveal_strlit(", ");
        assert(sep@ =~= ", "@);
    }
    let i1 = match find_after(&v, &sep, 0) {
        Some(i) => i,
        None => {
            return None;
        },
    };
    let i2 = match find_after(&v, &sep, i1 + 2) {
        Some(i) => i,
        None => {
            return None;
        },
    };
    let third_end = match find_after(&v, &sep, i2 + 2) {
        Some(i) => i,
        None => v.len(),
    };
    proof {
        lemma_find_from_bounds(v@, sep@, i2 + 2);
    }
    Some((string_of_range(&v, 0, i1), string_of_range(&v, i1 + 2, i2), string_of_range(&v, i2 + 2, third_end)))
}

proof fn lemma_find_from_bounds(s: Seq<char>, p: Seq<char>, from: int)
    ensures
        find_from(s, p, from) == -1 || (from <= find_from(s, p, from) && find_from(s, p, from)
            + p.len() <= s.len()),
    decreases s.len() + 1 - from,
{
    if from < 0 || from + p.len() > s.len() {
    } else if occurs_at(s, p, from) {
    } else {
        lemma_find_from_bounds(s, p, from + 1);
    }
}

/// Splitting a shortened name never loses text: brand and model put back
/// together (with the space) give the name again.
pub proof fn law_brand_model_rejoin(name: Seq<char>)
    ensures
        ({
            let (b, m) = brand_model(name);
            if m.len() == 0 && b == name {
                true
            } else {
                b + " "@ + m == name
            }
        }),
{
    let (b, m) = brand_model(name);
    reveal_strlit("NVIDIA ");
    reveal_strlit("AMD ");
    reveal_strlit("Intel ");
    reveal_strlit("NVIDIA");
    reveal_strlit("AMD");
    reveal_strlit("Intel");
    reveal_strlit(" ");
    if has_prefix(name, "NVIDIA "@) {
        assert(name.subrange(0, 7) == "NVIDIA "@);
        assert("NVIDIA "@ =~= "NVIDIA"@ + " "@);
        assert(name =~= name.subrange(0, 7) + name.subrange(7, name.len() as int));
        assert(b + " "@ + m =~= name);
    } else if has_prefix(name, "AMD "@) {
        assert(name.subrange(0, 4) == "AMD "@);
        assert("AMD "@ =~= "AMD"@ + " "@);
        assert(name =~= name.subrange(0, 4) + name.subrange(4, name.len() as int));
        assert(b + " "@ + m =~= name);
    } else if has_prefix(name, "Intel "@) {
        assert(name.subrange(0, 6) == "Intel "@);
        assert("Intel "@ =~= "Intel"@ + " "@);
        assert(name =~= name.subrange(0, 6) + name.subrange(6, name.len() as int));
        assert(b + " "@ + m =~= name);
    }
}

} // verus!
