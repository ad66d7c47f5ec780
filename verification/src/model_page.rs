//! The model settings page: the engine selector, one download button per
//! catalog model (download, cancel, failure, retry, delete), the Cohere
//! runtime/weights downloads with their preconditions, and the model-row
//! presentation for each download state.

use vstd::prelude::*;
use crate::text::{owned, push_str, push_decimal, decimal, same, contains, contains_seq, is_blank, has_non_ws};

verus! {

/// The transcription engine offered at a combo position (1 is Cohere).
pub open spec fn engine_backend(selected: u32) -> Seq<char> {
    if selected == 1 {
        "cohere"@
    } else {
        "whisper"@
    }
}

/// The combo position for a saved backend id.
pub fn engine_index(backend: &str) -> (i: u32)
    ensures
        i == (if backend@ == "cohere"@ { 1u32 } else { 0u32 }),
{
    if same(backend, "cohere") {
        1
    } else {
        0
    }
}

/// The backend id for an engine combo selection.
pub fn engine_for_selection(selected: u32) -> (s: &'static str)
    ensures
        s@ == engine_backend(selected),
{
    if selected == 1 {
        "cohere"
    } else {
        "whisper"
    }
}

/// Choosing an engine and reading the combo back gives the same engine.
pub proof fn law_engine_round_trip(selected: u32)
    requires
        selected < 2,
    ensures
        (if engine_backend(selected) == "cohere"@ { 1u32 } else { 0u32 }) == selected,
{
    reveal_strlit("cohere");
    reveal_strlit("whisper");
    assert("whisper"@.len() != "cohere"@.len());
}

/// The label of a download button.
#[derive(Debug, Clone, Copy, PartialEq, Eq, Structural)]
pub enum ButtonLabel {
    Download,
    Downloading,
    Downloaded,
    Retry,
}

/// The text of a button label.
pub open spec fn label_text(l: ButtonLabel) -> Seq<char> {
    match l {
        ButtonLabel::Download => "Download"@,
        ButtonLabel::Downloading => "Downloading…"@,
        ButtonLabel::Downloaded => "Downloaded"@,
        ButtonLabel::Retry => "Retry"@,
    }
}

pub fn button_label_text(l: ButtonLabel) -> (s: &'static str)
    ensures
        s@ == label_text(l),
{
    match l {
        ButtonLabel::Download => "Download",
        ButtonLabel::Downloading => "Downloading…",
        ButtonLabel::Downloaded => "Downloaded",
        ButtonLabel::Retry => "Retry",
    }
}

/// A catalog model's download button and the delete button beside it.
#[derive(Debug, Clone, Copy, PartialEq, Eq, Structural)]
pub struct DownloadButton {
    pub label: ButtonLabel,
    pub sensitive: bool,
    /// Styled as a success.
    pub success: bool,
    pub delete_visible: bool,
}

/// The buttons of a model that is on disk or not.
pub open spec fn initial_button_spec(downloaded: bool) -> DownloadButton {
    if downloaded {
        DownloadButton {
            label: ButtonLabel::Downloaded,
            sensitive: false,
            success: true,
            delete_visible: true,
        }
    } else {
        DownloadButton {
            label: ButtonLabel::Download,
            sensitive: true,
            success: false,
            delete_visible: false,
        }
    }
}

/// Whether a download failure message reports a cancellation.
pub open spec fn is_cancellation(err: Seq<char>) -> bool {
    contains_seq(err, "cancelled"@)
}

/// The button after a download ends: on success it shows "Downloaded" with
/// the delete button; after a cancellation it offers "Download" again, after
/// any other failure "Retry".
pub open spec fn finished_button(b: DownloadButton, ok: bool, err: Seq<char>) -> DownloadButton {
    if ok {
        DownloadButton {
            label: ButtonLabel::Downloaded,
            success: true,
            delete_visible: true,
            ..b
        }
    } else {
        DownloadButton {
            label: if is_cancellation(err) { ButtonLabel::Download } else { ButtonLabel::Retry },
            sensitive: true,
            ..b
        }
    }
}

/// The button after its model was deleted from disk.
pub open spec fn deleted_button(b: DownloadButton) -> DownloadButton {
    DownloadButton {
        label: ButtonLabel::Download,
        sensitive: true,
        success: false,
        delete_visible: false,
    }
}

/// Progress-bar text for a whole percentage.
pub open spec fn percent_text(p: nat) -> Seq<char> {
    decimal(p) + "%"@
}

/// Progress-bar text for a whole percentage, e.g. "42%".
pub fn percent_string(percent: u32) -> (s: String)
    ensures
        s@ == percent_text(percent as nat),
{
    let mut s = String::new();
    push_decimal(&mut s, percent as u64);
    push_str(&mut s, "%");
    s
}

/// What the progress area shows after a download ends: full or empty bar,
/// and the status line.
pub struct ProgressReport {
    pub full: bool,
    pub text: String,
}

/// The status line after a catalog-model download ends.
pub open spec fn finish_text(ok: bool, err: Seq<char>) -> Seq<char> {
    if ok {
        "Download complete!"@
    } else if is_cancellation(err) {
        "Download cancelled"@
    } else {
        "Error: "@ + err
    }
}

fn error_text(err: &str) -> (s: String)
    ensures
        s@ == "Error: "@ + err@,
{
    let mut s = owned("Error: ");
    push_str(&mut s, err);
    s
}

/// One catalog entry handed to the page: model id and whether it is on disk.
pub struct CatalogEntry {
    pub id: String,
    pub downloaded: bool,
}

pub struct ModelPage {
    engine: u32,
    ids: Vec<String>,
    buttons: Vec<DownloadButton>,
    cancel_armed: bool,
    cancel_visible: bool,
    cancel_sensitive: bool,
    status: String,
    runtime: DownloadButton,
    runtime_installed: bool,
    weights: DownloadButton,
    weights_downloaded: bool,
}

pub struct ModelPageView {
    pub engine: u32,
    pub ids: Seq<Seq<char>>,
    pub buttons: Seq<DownloadButton>,
    /// A cancel flag is shared with a running download.
    pub cancel_armed: bool,
    pub cancel_visible: bool,
    pub cancel_sensitive: bool,
    pub status: Seq<char>,
    pub runtime: DownloadButton,
    pub runtime_installed: bool,
    pub weights: DownloadButton,
    pub weights_downloaded: bool,
}

impl View for ModelPage {
    type V = ModelPageView;

    closed spec fn view(&self) -> ModelPageView {
        ModelPageView {
            engine: self.engine,
            ids: self.ids@.map_values(|s: String| s@),
            buttons: self.buttons@,
            cancel_armed: self.cancel_armed,
            cancel_visible: self.cancel_visible,
            cancel_sensitive: self.cancel_sensitive,
            status: self.status@,
            runtime: self.runtime,
            runtime_installed: self.runtime_installed,
            weights: self.weights,
            weights_downloaded: self.weights_downloaded,
        }
    }
}

/// What pressing the Cohere weights button leads to.
#[derive(Debug, Clone, PartialEq, Eq)]
pub enum WeightsClick {
    /// No token entered: nothing starts.
    NeedToken,
    /// The runtime is missing: nothing starts.
    NeedRuntime,
    /// The download starts with this token, which is first stored in the
    /// system keyring (never in the settings file) and then used for the
    /// download.
    Start(String),
}

/// What applying the token entry does with the keyring.
#[derive(Debug, Clone, PartialEq, Eq)]
pub enum TokenAction {
    Delete,
    Store(String),
}

/// A Cohere download button that is installed or not.
pub open spec fn cohere_button_spec(installed: bool) -> DownloadButton {
    DownloadButton {
        label: if installed { ButtonLabel::Downloaded } else { ButtonLabel::Download },
        sensitive: !installed,
        success: installed,
        delete_visible: false,
    }
}

/// A Cohere download button after its download ends.
pub open spec fn cohere_finished(b: DownloadButton, ok: bool) -> DownloadButton {
    if ok {
        DownloadButton { label: ButtonLabel::Downloaded, sensitive: false, success: true, ..b }
    } else {
        DownloadButton { label: ButtonLabel::Retry, sensitive: true, ..b }
    }
}

/// A button while its download runs.
pub open spec fn clicked(b: DownloadButton) -> DownloadButton {
    DownloadButton { label: ButtonLabel::Downloading, sensitive: false, ..b }
}

impl ModelPage {
    pub closed spec fn wf(self) -> bool {
        self.ids@.len() == self.buttons@.len()
    }

    /// The page for a backend, the catalog (with what is on disk), and the
    /// Cohere runtime and weights install state.
    pub fn new(
        backend: &str,
        catalog: &[CatalogEntry],
        runtime_installed: bool,
        weights_downloaded: bool,
    ) -> (p: Self)
        ensures
            p.wf(),
            p@.engine == (if backend@ == "cohere"@ { 1u32 } else { 0u32 }),
            p@.ids.len() == catalog@.len(),
            forall|i: int|
                0 <= i < catalog@.len() ==> #[trigger] p@.ids[i] == catalog@[i].id@
                    && p@.buttons[i] == initial_button_spec(catalog@[i].downloaded),
            !p@.cancel_armed,
            !p@.cancel_visible,
            p@.status.len() == 0,
            p@.runtime == cohere_button_spec(runtime_installed),
            p@.runtime_installed == runtime_installed,
            p@.weights == cohere_button_spec(weights_downloaded),
            p@.weights_downloaded == weights_downloaded,
    {
        let mut ids: Vec<String> = Vec::new();
        let mut buttons: Vec<DownloadButton> = Vec::new();
        let mut i: usize = 0;
        while i < catalog.len()
            invariant
                i <= catalog.len(),
                ids.len() == i,
                buttons.len() == i,
                forall|j: int|
                    0 <= j < i ==> ids@[j]@ == catalog@[j].id@ && buttons@[j]
                        == initial_button_spec(catalog@[j].downloaded),
            decreases catalog.len() - i,
        {
            ids.push(owned(catalog[i].id.as_str()));
            buttons.push(initial_button(catalog[i].downloaded));
            i = i + 1;
        }
        ModelPage {
            engine: engine_index(backend),
            ids,
            buttons,
            cancel_armed: false,
            cancel_visible: false,
            cancel_sensitive: true,
            status: String::new(),
            runtime: cohere_button(runtime_installed),
            runtime_installed,
            weights: cohere_button(weights_downloaded),
            weights_downloaded,
        }
    }

    /// Set the engine combo from a backend id.
    pub fn set_engine(&mut self, backend: &str)
        ensures
            final(self).wf() == old(self).wf(),
            final(self)@ == (ModelPageView {
                engine: if backend@ == "cohere"@ { 1u32 } else { 0u32 },
                ..old(self)@
            }),
    {
        self.engine = engine_index(backend);
    }

    /// The user picked an engine: remember it and return its backend id.
    pub fn engine_changed(&mut self, selected: u32) -> (backend: &'static str)
        ensures
            final(self).wf() == old(self).wf(),
            final(self)@ == (ModelPageView { engine: selected, ..old(self)@ }),
            backend@ == engine_backend(selected),
    {
        self.engine = selected;
        engine_for_selection(selected)
    }

    /// The download button of catalog model `i`.
    pub fn button(&self, i: usize) -> (b: DownloadButton)
        requires
            self.wf(),
            i < self@.buttons.len(),
        ensures
            b == self@.buttons[i as int],
    {
        self.buttons[i]
    }

    /// Catalog model `i`'s Download was pressed: the button shows the
    /// download running, a fresh cancel flag is armed and the Cancel button
    /// offered. Returns the id to download.
    pub fn start_download(&mut self, i: usize) -> (id: String)
        requires
            old(self).wf(),
            i < old(self)@.buttons.len(),
        ensures
            final(self).wf(),
            id@ == old(self)@.ids[i as int],
            final(self)@ == (ModelPageView {
                buttons: old(self)@.buttons.update(i as int, clicked(old(self)@.buttons[i as int])),
                cancel_armed: true,
                cancel_visible: true,
                cancel_sensitive: true,
                ..old(self)@
            }),
    {
        let b = self.buttons[i];
        self.buttons.set(i, DownloadButton { label: ButtonLabel::Downloading, sensitive: false, ..b });
        self.cancel_armed = true;
        self.cancel_visible = true;
        self.cancel_sensitive = true;
        owned(self.ids[i].as_str())
    }

    /// Cancel was pressed: the button greys out; returns whether a running
    /// download's flag is raised.
    pub fn cancel_clicked(&mut self) -> (raised: bool)
        ensures
            final(self).wf() == old(self).wf(),
            raised == old(self)@.cancel_armed,
            final(self)@ == (ModelPageView { cancel_sensitive: false, ..old(self)@ }),
    {
        self.cancel_sensitive = false;
        self.cancel_armed
    }

    /// Catalog model `i`'s download ended with `result` (the error message
    /// on failure). The cancel flag is dropped and Cancel hidden. Returns the
    /// status report, and on success the model id to save as selected (with
    /// the first run done) and to load.
    pub fn finish_download(&mut self, i: usize, result: &Result<(), String>) -> (r: (
        ProgressReport,
        Option<String>,
    ))
        requires
            old(self).wf(),
            i < old(self)@.buttons.len(),
        ensures
            final(self).wf(),
            ({
                let ok = result is Ok;
                let err = match result {
                    Ok(_) => Seq::<char>::empty(),
                    Err(e) => e@,
                };
                &&& final(self)@ == (ModelPageView {
                    buttons: old(self)@.buttons.update(
                        i as int,
                        finished_button(old(self)@.buttons[i as int], ok, err),
                    ),
                    cancel_armed: false,
                    cancel_visible: false,
                    status: finish_text(ok, err),
                    ..old(self)@
                })
                &&& r.0.full == ok
                &&& r.0.text@ == finish_text(ok, err)
                &&& match r.1 {
                    Some(id) => ok && id@ == old(self)@.ids[i as int],
                    None => !ok,
                }
            }),
    {
        self.cancel_armed = false;
        self.cancel_visible = false;
        let b = self.buttons[i];
        match result {
            Ok(()) => {
                self.buttons.set(
                    i,
                    DownloadButton {
                        label: ButtonLabel::Downloaded,
                        success: true,
                        delete_visible: true,
                        ..b
                    },
                );
                self.status = owned("Download complete!");
                (
                    ProgressReport { full: true, text: owned("Download complete!") },
                    Some(owned(self.ids[i].as_str())),
                )
            },
            Err(e) => {
                let cancelled = contains(e.as_str(), "cancelled");
                self.buttons.set(
                    i,
                    DownloadButton {
                        label: if cancelled {
                            ButtonLabel::Download
                        } else {
                            ButtonLabel::Retry
                        },
                        sensitive: true,
                        ..b
                    },
                );
                let text = if cancelled {
                    owned("Download cancelled")
                } else {
                    error_text(e.as_str())
                };
                self.status = owned(text.as_str());
                (ProgressReport { full: false, text }, None)
            },
        }
    }

    /// The delete dialog for model `i` closed with `response`; when the user
    /// confirmed and the files were removed (`removed`), the buttons return to
    /// "Download". Returns the id whose removal the main window must handle.
    pub fn delete_finished(&mut self, i: usize, response: &str, removed: bool) -> (id: Option<String>)
        requires
            old(self).wf(),
            i < old(self)@.buttons.len(),
        ensures
            final(self).wf(),
            (response@ == "delete"@ && removed) ==> final(self)@ == (ModelPageView {
                buttons: old(self)@.buttons.update(
                    i as int,
                    deleted_button(old(self)@.buttons[i as int]),
                ),
                ..old(self)@
            }) && (id matches Some(s) && s@ == old(self)@.ids[i as int]),
            !(response@ == "delete"@ && removed) ==> final(self)@ == old(self)@ && id is None,
    {
        if !same(response, "delete") || !removed {
            return None;
        }
        self.buttons.set(
            i,
            DownloadButton {
                label: ButtonLabel::Download,
                sensitive: true,
                success: false,
                delete_visible: false,
            },
        );
        Some(owned(self.ids[i].as_str()))
    }

    /// Download progress: the status line shows `status_text` (such as the
    /// megabytes so far); returns the bar text for the whole percentage.
    pub fn set_download_progress(&mut self, percent: u32, status_text: &str) -> (bar: String)
        ensures
            final(self).wf() == old(self).wf(),
            final(self)@ == (ModelPageView { status: status_text@, ..old(self)@ }),
            bar@ == percent_text(percent as nat),
    {
        self.status = owned(status_text);
        percent_string(percent)
    }

    /// The status line under the progress bar.
    pub fn status(&self) -> (s: &str)
        ensures
            s@ == self@.status,
    {
        self.status.as_str()
    }

    /// Show a status line under the progress bar.
    pub fn set_download_status(&mut self, text: &str)
        ensures
            final(self).wf() == old(self).wf(),
            final(self)@ == (ModelPageView { status: text@, ..old(self)@ }),
    {
        self.status = owned(text);
    }

    /// Clear the status line.
    pub fn clear_progress(&mut self)
        ensures
            final(self).wf() == old(self).wf(),
            final(self)@ == (ModelPageView { status: Seq::empty(), ..old(self)@ }),
    {
        self.status = String::new();
    }

    /// The Cohere runtime's Download was pressed.
    pub fn start_runtime_download(&mut self)
        ensures
            final(self).wf() == old(self).wf(),
            final(self)@ == (ModelPageView { runtime: clicked(old(self)@.runtime), ..old(self)@ }),
    {
        self.runtime = DownloadButton {
            label: ButtonLabel::Downloading,
            sensitive: false,
            ..self.runtime
        };
    }

    /// The runtime download ended.
    pub fn finish_runtime_download(&mut self, result: &Result<(), String>) -> (r: ProgressReport)
        ensures
            final(self).wf() == old(self).wf(),
            final(self)@ == (ModelPageView {
                runtime: cohere_finished(old(self)@.runtime, result is Ok),
                runtime_installed: old(self)@.runtime_installed || result is Ok,
                status: r.text@,
                ..old(self)@
            }),
            r.full == result is Ok,
            r.text@ == (match result {
                Ok(_) => "Runtime download complete!"@,
                Err(e) => "Error: "@ + e@,
            }),
    {
        let b = self.runtime;
        let r = match result {
            Ok(()) => {
                self.runtime = DownloadButton {
                    label: ButtonLabel::Downloaded,
                    sensitive: false,
                    success: true,
                    ..b
                };
                self.runtime_installed = true;
                ProgressReport { full: true, text: owned("Runtime download complete!") }
            },
            Err(e) => {
                self.runtime = DownloadButton { label: ButtonLabel::Retry, sensitive: true, ..b };
                ProgressReport { full: false, text: error_text(e.as_str()) }
            },
        };
        self.status = owned(r.text.as_str());
        r
    }

    /// The Cohere weights' Download was pressed with the entered token: it
    /// starts only with a token and an installed runtime, handing back the
    /// token to store in the keyring before the download uses it; otherwise
    /// the status line says what is missing.
    pub fn weights_clicked(&mut self, token: &str) -> (c: WeightsClick)
        ensures
            final(self).wf() == old(self).wf(),
            token@.len() == 0 ==> c == WeightsClick::NeedToken && final(self)@ == (ModelPageView {
                status: "Please enter your HuggingFace token first."@,
                ..old(self)@
            }),
            token@.len() != 0 && !old(self)@.runtime_installed ==> c == WeightsClick::NeedRuntime
                && final(self)@ == (ModelPageView {
                status: "Please download the runtime first."@,
                ..old(self)@
            }),
            token@.len() != 0 && old(self)@.runtime_installed ==> (c matches WeightsClick::Start(t)
                && t@ == token@) && final(self)@ == (ModelPageView { weights: clicked(old(self)@.weights), ..old(self)@ }),
    {
        if token.unicode_len() == 0 {
            self.status = owned("Please enter your HuggingFace token first.");
            return WeightsClick::NeedToken;
        }
        if !self.runtime_installed {
            self.status = owned("Please download the runtime first.");
            return WeightsClick::NeedRuntime;
        }
        self.weights = DownloadButton {
            label: ButtonLabel::Downloading,
            sensitive: false,
            ..self.weights
        };
        WeightsClick::Start(owned(token))
    }

    /// The weights download ended.
    pub fn finish_weights_download(&mut self, result: &Result<(), String>) -> (r: ProgressReport)
        ensures
            final(self).wf() == old(self).wf(),
            final(self)@ == (ModelPageView {
                weights: cohere_finished(old(self)@.weights, result is Ok),
                weights_downloaded: old(self)@.weights_downloaded || result is Ok,
                status: r.text@,
                ..old(self)@
            }),
            r.full == result is Ok,
            r.text@ == (match result {
                Ok(_) => "Model download complete!"@,
                Err(e) => "Error: "@ + e@,
            }),
    {
        let b = self.weights;
        let r = match result {
            Ok(()) => {
                self.weights = DownloadButton {
                    label: ButtonLabel::Downloaded,
                    sensitive: false,
                    success: true,
                    ..b
                };
                self.weights_downloaded = true;
                ProgressReport { full: true, text: owned("Model download complete!") }
            },
            Err(e) => {
                self.weights = DownloadButton { label: ButtonLabel::Retry, sensitive: true, ..b };
                ProgressReport { full: false, text: error_text(e.as_str()) }
            },
        };
        self.status = owned(r.text.as_str());
        r
    }

    /// The runtime's install line ("✅ Installed" / "❌ Not installed").
    pub fn runtime_status(&self) -> (s: &'static str)
        ensures
            s@ == (if self@.runtime_installed { "✅ Installed"@ } else { "❌ Not installed"@ }),
    {
        if self.runtime_installed {
            "✅ Installed"
        } else {
            "❌ Not installed"
        }
    }

    /// The weights' download line ("✅ Downloaded" / "❌ Not downloaded").
    pub fn weights_status(&self) -> (s: &'static str)
        ensures
            s@ == (if self@.weights_downloaded { "✅ Downloaded"@ } else { "❌ Not downloaded"@ }),
    {
        if self.weights_downloaded {
            "✅ Downloaded"
        } else {
            "❌ Not downloaded"
        }
    }
}

fn initial_button(downloaded: bool) -> (b: DownloadButton)
    ensures
        b == initial_button_spec(downloaded),
{
    if downloaded {
        DownloadButton {
            label: ButtonLabel::Downloaded,
            sensitive: false,
            success: true,
            delete_visible: true,
        }
    } else {
        DownloadButton {
            label: ButtonLabel::Download,
            sensitive: true,
            success: false,
            delete_visible: false,
        }
    }
}

fn cohere_button(installed: bool) -> (b: DownloadButton)
    ensures
        b == cohere_button_spec(installed),
{
    DownloadButton {
        label: if installed {
            ButtonLabel::Downloaded
        } else {
            ButtonLabel::Download
        },
        sensitive: !installed,
        success: installed,
        delete_visible: false,
    }
}

/// What applying the HuggingFace token entry does: an empty entry removes
/// the stored token, any other text is stored.
pub fn token_action(text: &str) -> (a: TokenAction)
    ensures
        text@.len() == 0 ==> a == TokenAction::Delete,
        text@.len() != 0 ==> (a matches TokenAction::Store(t) && t@ == text@),
{
    if text.unicode_len() == 0 {
        TokenAction::Delete
    } else {
        TokenAction::Store(owned(text))
    }
}

/// A failed download can always be started again: after any failure the
/// button is usable, and it reads "Download" exactly when the failure was a
/// cancellation.
pub proof fn law_failure_allows_retry(b: DownloadButton, err: Seq<char>)
    ensures
        finished_button(b, false, err).sensitive,
        (finished_button(b, false, err).label == ButtonLabel::Download) <==> is_cancellation(err),
        finished_button(b, false, err).label == ButtonLabel::Download || finished_button(
            b,
            false,
            err,
        ).label == ButtonLabel::Retry,
{
}

/// Downloading a model that is not on disk and then deleting it brings its
/// buttons back to where they started.
pub proof fn law_download_then_delete(b: DownloadButton)
    requires
        b == initial_button_spec(false),
    ensures
        deleted_button(finished_button(clicked(b), true, Seq::empty())) == b,
        finished_button(clicked(b), true, Seq::empty()) == initial_button_spec(true),
{
}

/// The per-row download state of the model list.
#[derive(Debug, Clone, Copy, PartialEq, Eq, Structural)]
pub enum ModelState {
    NotDownloaded,
    Downloading,
    Downloaded,
    Selected,
}

/// How a model row looks in a state: button text, whether it can be
/// pressed, whether it is highlighted, whether the progress bar shows.
pub struct RowLook {
    pub label: &'static str,
    pub sensitive: bool,
    pub suggested: bool,
    pub progress_visible: bool,
}

pub open spec fn row_look_spec(state: ModelState, l: RowLook) -> bool {
    &&& l.label@ == (match state {
        ModelState::NotDownloaded => "Download"@,
        ModelState::Downloading => "Downloading…"@,
        ModelState::Downloaded => "Select"@,
        ModelState::Selected => "Selected"@,
    })
    &&& l.sensitive == (state == ModelState::NotDownloaded || state == ModelState::Downloaded)
    &&& l.suggested == (state == ModelState::Selected)
    &&& l.progress_visible == (state == ModelState::Downloading)
}

/// A model row's look for a download state.
pub fn row_look(state: ModelState) -> (l: RowLook)
    ensures
        row_look_spec(state, l),
{
    match state {
        ModelState::NotDownloaded => RowLook {
            label: "Download",
            sensitive: true,
            suggested: false,
            progress_visible: false,
        },
        ModelState::Downloading => RowLook {
            label: "Downloading…",
            sensitive: false,
            suggested: false,
            progress_visible: true,
        },
        ModelState::Downloaded => RowLook {
            label: "Select",
            sensitive: true,
            suggested: false,
            progress_visible: false,
        },
        ModelState::Selected => RowLook {
            label: "Selected",
            sensitive: false,
            suggested: true,
            progress_visible: false,
        },
    }
}

/// One model in a model list.
pub struct ModelRow {
    pub name: String,
    pub size: String,
    pub description: String,
    pub state: ModelState,
}

impl ModelRow {
    /// A row for a model that is not downloaded yet.
    pub fn new(name: &str, size: &str, description: &str) -> (r: Self)
        ensures
            r.name@ == name@,
            r.size@ == size@,
            r.description@ == description@,
            r.state == ModelState::NotDownloaded,
    {
        ModelRow {
            name: owned(name),
            size: owned(size),
            description: owned(description),
            state: ModelState::NotDownloaded,
        }
    }

    /// The row's progress-bar text for a whole percentage.
    pub fn set_progress(&self, percent: u32) -> (bar: String)
        ensures
            bar@ == percent_text(percent as nat),
    {
        percent_string(percent)
    }

    /// Change the download state; returns how the row now looks.
    pub fn set_state(&mut self, state: ModelState) -> (l: RowLook)
        ensures
            final(self).state == state,
            final(self).name@ == old(self).name@,
            final(self).size@ == old(self).size@,
            final(self).description@ == old(self).description@,
            row_look_spec(state, l),
    {
        self.state = state;
        row_look(state)
    }
}

} // verus!
