//! The header bar: page title, microphone list, the model selector (its
//! entries depend on the transcription backend and on what is downloaded)
//! and the model-loaded indicator.

use vstd::prelude::*;
use crate::text::{owned, same};
use crate::transcript::{texts, copy_strings};

verus! {

/// The first ids of a list of (id, name) pairs.
pub open spec fn pair_ids(s: Seq<(String, String)>) -> Seq<Seq<char>> {
    s.map_values(|p: (String, String)| p.0@)
}

/// The display names of a list of (id, name) pairs.
pub open spec fn pair_names(s: Seq<(String, String)>) -> Seq<Seq<char>> {
    s.map_values(|p: (String, String)| p.1@)
}

/// The dropdown entries offered for a backend: display names, model ids and
/// whether the selector can be used.
pub open spec fn backend_entries(
    backend: Seq<char>,
    downloaded: Seq<(String, String)>,
    qwen_small: bool,
    qwen_large: bool,
) -> (Seq<Seq<char>>, Seq<Seq<char>>, bool) {
    if backend == "cohere"@ {
        (seq!["Cohere Transcribe"@], seq!["cohere-transcribe"@], false)
    } else if backend == "qwen"@ {
        let names = (if qwen_small { seq!["Qwen3 0.6B"@] } else { Seq::empty() }) + (if qwen_large {
            seq!["Qwen3 1.7B"@]
        } else {
            Seq::empty()
        });
        let ids = (if qwen_small { seq!["0.6B"@] } else { Seq::empty() }) + (if qwen_large {
            seq!["1.7B"@]
        } else {
            Seq::empty()
        });
        if names.len() == 0 {
            (seq!["No model downloaded"@], Seq::empty(), false)
        } else {
            (names, ids, true)
        }
    } else if downloaded.len() == 0 {
        (seq!["No models downloaded"@], Seq::empty(), false)
    } else {
        (pair_names(downloaded), pair_ids(downloaded), true)
    }
}

/// The model id the header reports for a selection: the id at the selected
/// entry, or "base" when there is none.
pub open spec fn selected_id_of(ids: Seq<Seq<char>>, selected: int) -> Seq<char> {
    if 0 <= selected < ids.len() {
        ids[selected]
    } else {
        "base"@
    }
}

/// Where selecting by id lands: the first entry with that id, else the first entry.
pub open spec fn position_or_first(ids: Seq<Seq<char>>, id: Seq<char>, r: int) -> bool {
    if exists|j: int| 0 <= j < ids.len() && ids[j] == id {
        0 <= r < ids.len() && ids[r] == id && forall|j: int| 0 <= j < r ==> ids[j] != id
    } else {
        r == 0
    }
}

pub struct HeaderControls {
    page_title: String,
    microphones: Vec<String>,
    model_names: Vec<String>,
    model_ids: Vec<String>,
    selected: u32,
    models_sensitive: bool,
    status: Option<bool>,
}

pub struct HeaderView {
    pub page_title: Seq<char>,
    pub microphones: Seq<Seq<char>>,
    pub model_names: Seq<Seq<char>>,
    pub model_ids: Seq<Seq<char>>,
    pub selected: u32,
    pub models_sensitive: bool,
    /// Whether a model is loaded, once reported.
    pub status: Option<bool>,
}

impl View for HeaderControls {
    type V = HeaderView;

    closed spec fn view(&self) -> HeaderView {
        HeaderView {
            page_title: self.page_title@,
            microphones: texts(self.microphones@),
            model_names: texts(self.model_names@),
            model_ids: texts(self.model_ids@),
            selected: self.selected,
            models_sensitive: self.models_sensitive,
            status: self.status,
        }
    }
}

fn one(s: &str) -> (v: Vec<String>)
    ensures
        texts(v@) == seq![s@],
{
    let mut v: Vec<String> = Vec::new();
    v.push(owned(s));
    assert(texts(v@) =~= seq![s@]);
    v
}

impl HeaderControls {
    /// Titled "Transcription", one placeholder microphone, the five Whisper
    /// sizes listed (no ids known yet), no status reported.
    pub fn new() -> (h: Self)
        ensures
            h@.page_title == "Transcription"@,
            h@.microphones == seq!["Built-in Audio"@],
            h@.model_names == seq!["Tiny"@, "Base"@, "Small"@, "Medium"@, "Large"@],
            h@.model_ids.len() == 0,
            h@.selected == 0,
            h@.models_sensitive,
            h@.status is None,
    {
        let mut names: Vec<String> = Vec::new();
        names.push(owned("Tiny"));
        names.push(owned("Base"));
        names.push(owned("Small"));
        names.push(owned("Medium"));
        names.push(owned("Large"));
        let h = HeaderControls {
            page_title: owned("Transcription"),
            microphones: one("Built-in Audio"),
            model_names: names,
            model_ids: Vec::new(),
            selected: 0,
            models_sensitive: true,
            status: None,
        };
        assert(h@.model_names =~= seq!["Tiny"@, "Base"@, "Small"@, "Medium"@, "Large"@]);
        assert(h@.model_ids =~= Seq::<Seq<char>>::empty());
        h
    }

    pub fn set_page_title(&mut self, title: &str)
        ensures
            final(self)@ == (HeaderView { page_title: title@, ..old(self)@ }),
    {
        self.page_title = owned(title);
    }

    /// Replace the microphone list.
    pub fn set_microphones(&mut self, devices: &[String])
        ensures
            final(self)@ == (HeaderView { microphones: texts(devices@), ..old(self)@ }),
    {
        self.microphones = copy_strings(devices);
    }

    /// Report whether a model is loaded; returns the status text
    /// ("Model Loaded" / "No Model") and whether the dot shows success.
    pub fn set_model_status(&mut self, loaded: bool, model_name: &str) -> (r: (&'static str, bool))
        ensures
            final(self)@ == (HeaderView { status: Some(loaded), ..old(self)@ }),
            r.0@ == (if loaded { "Model Loaded"@ } else { "No Model"@ }),
            r.1 == loaded,
    {
        self.status = Some(loaded);
        if loaded {
            ("Model Loaded", true)
        } else {
            ("No Model", false)
        }
    }

    /// Select a dropdown entry by position.
    pub fn set_selected_model(&mut self, index: u32)
        ensures
            final(self)@ == (HeaderView { selected: index, ..old(self)@ }),
    {
        self.selected = index;
    }

    /// Select the first entry whose id is `id`, or the first entry.
    pub fn set_selected_model_by_id(&mut self, id: &str)
        requires
            old(self)@.model_ids.len() <= u32::MAX,
        ensures
            position_or_first(old(self)@.model_ids, id@, final(self)@.selected as int),
            final(self)@ == (HeaderView { selected: final(self)@.selected, ..old(self)@ }),
    {
        let n = self.model_ids.len();
        let mut found: usize = 0;
        let mut i: usize = 0;
        while i < n
            invariant_except_break
                found == 0,
            invariant
                n == self.model_ids.len(),
                n <= u32::MAX,
                i <= n,
                forall|j: int| 0 <= j < i ==> texts(self.model_ids@)[j] != id@,
            ensures
                i <= n,
                i < n ==> found == i && texts(self.model_ids@)[i as int] == id@,
                i == n ==> found == 0,
                forall|j: int| 0 <= j < i ==> texts(self.model_ids@)[j] != id@,
            decreases n - i,
        {
            if same(self.model_ids[i].as_str(), id) {
                found = i;
                break;
            }
            i = i + 1;
        }
        self.selected = found as u32;
    }

    /// Fill the model selector for a backend. Cohere offers its one model;
    /// Qwen the downloaded sizes (`qwen_small` is 0.6B, `qwen_large` 1.7B);
    /// any other backend the downloaded (id, name) pairs. The first entry is
    /// selected.
    pub fn update_models_for_backend(
        &mut self,
        backend: &str,
        downloaded: &[(String, String)],
        qwen_small: bool,
        qwen_large: bool,
    )
        ensures
            ({
                let e = backend_entries(backend@, downloaded@, qwen_small, qwen_large);
                final(self)@ == (HeaderView {
                    model_names: e.0,
                    model_ids: e.1,
                    models_sensitive: e.2,
                    selected: 0,
                    ..old(self)@
                })
            }),
    {
        self.selected = 0;
        if same(backend, "cohere") {
            self.model_names = one("Cohere Transcribe");
            self.model_ids = one("cohere-transcribe");
            self.models_sensitive = false;
        } else if same(backend, "qwen") {
            let mut names: Vec<String> = Vec::new();
            let mut ids: Vec<String> = Vec::new();
            if qwen_small {
                names.push(owned("Qwen3 0.6B"));
                ids.push(owned("0.6B"));
            }
            if qwen_large {
                names.push(owned("Qwen3 1.7B"));
                ids.push(owned("1.7B"));
            }
            let ghost en = (if qwen_small { seq!["Qwen3 0.6B"@] } else { Seq::empty() }) + (
            if qwen_large {
                seq!["Qwen3 1.7B"@]
            } else {
                Seq::empty()
            });
            let ghost ei = (if qwen_small { seq!["0.6B"@] } else { Seq::empty() }) + (if qwen_large {
                seq!["1.7B"@]
            } else {
                Seq::empty()
            });
            assert(texts(names@) =~= en);
            assert(texts(ids@) =~= ei);
            if names.len() == 0 {
                self.model_names = one("No model downloaded");
                self.model_ids = Vec::new();
                self.models_sensitive = false;
                assert(texts(self.model_ids@) =~= Seq::<Seq<char>>::empty());
            } else {
                self.model_names = names;
                self.model_ids = ids;
                self.models_sensitive = true;
            }
        } else if downloaded.len() == 0 {
            self.model_names = one("No models downloaded");
            self.model_ids = Vec::new();
            self.models_sensitive = false;
            assert(texts(self.model_ids@) =~= Seq::<Seq<char>>::empty());
        } else {
            let mut names: Vec<String> = Vec::new();
            let mut ids: Vec<String> = Vec::new();
            let mut i: usize = 0;
            while i < downloaded.len()
                invariant
                    i <= downloaded.len(),
                    texts(names@) == pair_names(downloaded@).take(i as int),
                    texts(ids@) == pair_ids(downloaded@).take(i as int),
                decreases downloaded.len() - i,
            {
                let nm = owned(downloaded[i].1.as_str());
                let id = owned(downloaded[i].0.as_str());
                assert(nm@ == pair_names(downloaded@)[i as int]);
                assert(id@ == pair_ids(downloaded@)[i as int]);
                let ghost prev_names = names@;
                let ghost prev_ids = ids@;
                names.push(nm);
                ids.push(id);
                assert(texts(names@) =~= texts(prev_names).push(nm@));
                assert(texts(ids@) =~= texts(prev_ids).push(id@));
                assert(texts(names@) =~= pair_names(downloaded@).take(i + 1));
                assert(texts(ids@) =~= pair_ids(downloaded@).take(i + 1));
                i = i + 1;
            }
            assert(pair_names(downloaded@).take(downloaded.len() as int) =~= pair_names(
                downloaded@,
            ));
            assert(pair_ids(downloaded@).take(downloaded.len() as int) =~= pair_ids(downloaded@));
            self.model_names = names;
            self.model_ids = ids;
            self.models_sensitive = true;
        }
    }

    /// The id of the selected model ("base" when no entry has an id).
    pub fn selected_model_id(&self) -> (s: String)
        ensures
            s@ == selected_id_of(self@.model_ids, self@.selected as int),
    {
        let index = self.selected as usize;
        if index < self.model_ids.len() {
            self.model_ids[index].clone()
        } else {
            owned("base")
        }
    }

    /// The user picked entry `index`: select it and return the id to load,
    /// if that entry has one.
    pub fn select_model(&mut self, index: u32) -> (id: Option<String>)
        ensures
            final(self)@ == (HeaderView { selected: index, ..old(self)@ }),
            match id {
                Some(s) => index < old(self)@.model_ids.len() && s@ == old(self)@.model_ids[index as int],
                None => index >= old(self)@.model_ids.len(),
            },
    {
        self.selected = index;
        let i = index as usize;
        if i < self.model_ids.len() {
            Some(self.model_ids[i].clone())
        } else {
            None
        }
    }
}

/// Selecting a model by an id the selector lists makes that id the one the
/// header reports.
pub proof fn law_select_by_id_round_trip(ids: Seq<Seq<char>>, id: Seq<char>, r: int)
    requires
        position_or_first(ids, id, r),
        exists|j: int| 0 <= j < ids.len() && ids[j] == id,
    ensures
        selected_id_of(ids, r) == id,
{
}

/// After the selector is filled for a backend, the header reports the first
/// listed model: Cohere's model, the smallest downloaded Qwen size, or the
/// first downloaded model; with nothing downloaded it falls back to "base".
pub proof fn law_filled_selector_reports_first(
    backend: Seq<char>,
    downloaded: Seq<(String, String)>,
    qwen_small: bool,
    qwen_large: bool,
)
    ensures
        ({
            let e = backend_entries(backend, downloaded, qwen_small, qwen_large);
            let id = selected_id_of(e.1, 0);
            &&& backend == "cohere"@ ==> id == "cohere-transcribe"@
            &&& backend != "cohere"@ && backend == "qwen"@ && qwen_small ==> id == "0.6B"@
            &&& backend != "cohere"@ && backend == "qwen"@ && !qwen_small && qwen_large ==> id
                == "1.7B"@
            &&& backend != "cohere"@ && backend != "qwen"@ && downloaded.len() > 0 ==> id
                == downloaded[0].0@
            &&& e.1.len() == 0 ==> id == "base"@
            &&& backend != "cohere"@ ==> (e.1.len() > 0 <==> e.2)
        }),
{
    let e = backend_entries(backend, downloaded, qwen_small, qwen_large);
    if backend != "cohere"@ && backend == "qwen"@ {
        if qwen_small {
            assert(e.1[0] == "0.6B"@);
        } else if qwen_large {
            assert(e.1 =~= seq!["1.7B"@]);
        }
    }
}

} // verus!
