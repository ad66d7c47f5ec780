//! The first-run wizard: paging through welcome, model download and finish,
//! the automatic download on reaching the model page, and when the wizard
//! counts as completed.

use vstd::prelude::*;
use crate::text::{owned, push_str};
use crate::model_page::{CatalogEntry, percent_string, percent_text};

verus! {

/// Number of wizard pages: welcome, model download, finish.
pub const WIZARD_PAGES: u32 = 3;

/// The model offered first: the first quantized size.
pub const DEFAULT_MODEL_CHOICE: u32 = 5;

/// The dropdown label of a catalog model.
pub open spec fn model_choice_text(name: Seq<char>, size: Seq<char>, quantized: bool) -> Seq<char> {
    name + " ("@ + size + ") — "@ + (if quantized { "Quantized"@ } else { "Full"@ })
}

pub fn model_choice_label(name: &str, size: &str, quantized: bool) -> (s: String)
    ensures
        s@ == model_choice_text(name@, size@, quantized),
{
    let mut s = owned(name);
    push_str(&mut s, " (");
    push_str(&mut s, size);
    push_str(&mut s, ") — ");
    push_str(&mut s, if quantized { "Quantized" } else { "Full" });
    s
}

/// What pressing Next does.
pub struct NextStep {
    /// The page to scroll to, if there is a next one.
    pub scroll_to: Option<u32>,
    /// Start the model download (leaving the welcome page).
    pub start_download: bool,
}

/// What pressing the download button does.
#[derive(Debug, Clone, PartialEq, Eq)]
pub enum DownloadStep {
    /// No model is selected.
    Nothing,
    /// The model is already on disk: the wizard moves to the finish page.
    AlreadyThere,
    /// Download the model with this id.
    Download(String),
}

pub struct WelcomeWizard {
    position: u32,
    next_visible: bool,
    finish_visible: bool,
    finish_sensitive: bool,
    completed: bool,
    downloaded: Option<String>,
    pending: Option<String>,
    button_label: &'static str,
    button_sensitive: bool,
    progress_visible: bool,
    status: String,
}

pub struct WizardView {
    pub position: u32,
    pub next_visible: bool,
    pub finish_visible: bool,
    pub finish_sensitive: bool,
    pub completed: bool,
    /// The model that ended up on disk.
    pub downloaded: Option<Seq<char>>,
    /// The model being downloaded.
    pub pending: Option<Seq<char>>,
    pub button_label: Seq<char>,
    pub button_sensitive: bool,
    pub progress_visible: bool,
    pub status: Seq<char>,
}

pub open spec fn opt_seq(o: Option<String>) -> Option<Seq<char>> {
    match o {
        Some(s) => Some(s@),
        None => None,
    }
}

impl View for WelcomeWizard {
    type V = WizardView;

    closed spec fn view(&self) -> WizardView {
        WizardView {
            position: self.position,
            next_visible: self.next_visible,
            finish_visible: self.finish_visible,
            finish_sensitive: self.finish_sensitive,
            completed: self.completed,
            downloaded: opt_seq(self.downloaded),
            pending: opt_seq(self.pending),
            button_label: self.button_label@,
            button_sensitive: self.button_sensitive,
            progress_visible: self.progress_visible,
            status: self.status@,
        }
    }
}

/// The wizard once a model is on disk: the download button done, the
/// carousel on the last page and "Get Started" usable.
pub open spec fn download_done(v: WizardView, id: Seq<char>) -> WizardView {
    WizardView {
        downloaded: Some(id),
        button_label: "Downloaded ✓"@,
        button_sensitive: false,
        position: (WIZARD_PAGES - 1) as u32,
        next_visible: false,
        finish_visible: true,
        finish_sensitive: true,
        ..v
    }
}

impl WelcomeWizard {
    pub closed spec fn wf(self) -> bool {
        self.position < WIZARD_PAGES
    }

    /// The wizard on its welcome page.
    pub fn new() -> (w: Self)
        ensures
            w.wf(),
            w@.position == 0,
            w@.next_visible,
            !w@.finish_visible,
            !w@.finish_sensitive,
            !w@.completed,
            w@.downloaded is None,
            w@.pending is None,
            w@.button_label == "Download Model"@,
            w@.button_sensitive,
            !w@.progress_visible,
            w@.status.len() == 0,
    {
        WelcomeWizard {
            position: 0,
            next_visible: true,
            finish_visible: false,
            finish_sensitive: false,
            completed: false,
            downloaded: None,
            pending: None,
            button_label: "Download Model",
            button_sensitive: true,
            progress_visible: false,
            status: String::new(),
        }
    }

    /// Next was pressed: scroll to the following page; before the last page
    /// Next gives way to "Get Started" (still disabled until a model is on
    /// disk); leaving the welcome page starts the download.
    pub fn next_clicked(&mut self) -> (s: NextStep)
        requires
            old(self).wf(),
        ensures
            final(self).wf(),
            ({
                let pos = old(self)@.position;
                &&& s.scroll_to == (if pos + 1 < WIZARD_PAGES { Some((pos + 1) as u32) } else { None })
                &&& s.start_download == (pos == 0)
                &&& final(self)@ == (WizardView {
                    position: if pos + 1 < WIZARD_PAGES { (pos + 1) as u32 } else { pos },
                    next_visible: if pos + 2 >= WIZARD_PAGES { false } else { old(self)@.next_visible },
                    finish_visible: if pos + 2 >= WIZARD_PAGES {
                        true
                    } else {
                        old(self)@.finish_visible
                    },
                    ..old(self)@
                })
            }),
    {
        let pos = self.position;
        let mut scroll_to = None;
        if pos + 1 < WIZARD_PAGES {
            self.position = pos + 1;
            scroll_to = Some(pos + 1);
        }
        if pos + 2 >= WIZARD_PAGES {
            self.next_visible = false;
            self.finish_visible = true;
        }
        NextStep { scroll_to, start_download: pos == 0 }
    }

    /// The download button was pressed with catalog entry `selected` chosen.
    pub fn download_clicked(&mut self, selected: u32, catalog: &[CatalogEntry]) -> (s: DownloadStep)
        requires
            old(self).wf(),
        ensures
            final(self).wf(),
            selected >= catalog@.len() ==> s == DownloadStep::Nothing && final(self)@ == old(self)@,
            selected < catalog@.len() && catalog@[selected as int].downloaded ==> s
                == DownloadStep::AlreadyThere && final(self)@ == (WizardView {
                status: "Model already downloaded!"@,
                ..download_done(old(self)@, catalog@[selected as int].id@)
            }),
            selected < catalog@.len() && !catalog@[selected as int].downloaded ==> (s matches DownloadStep::Download(id)
                && id@ == catalog@[selected as int].id@) && final(self)@ == (WizardView {
                pending: Some(catalog@[selected as int].id@),
                button_label: "Downloading…"@,
                button_sensitive: false,
                progress_visible: true,
                status: "Starting download…"@,
                ..old(self)@
            }),
    {
        let i = selected as usize;
        if i >= catalog.len() {
            return DownloadStep::Nothing;
        }
        let entry = &catalog[i];
        if entry.downloaded {
            self.status = owned("Model already downloaded!");
            self.download_complete(entry.id.as_str());
            return DownloadStep::AlreadyThere;
        }
        self.pending = Some(owned(entry.id.as_str()));
        self.button_label = "Downloading…";
        self.button_sensitive = false;
        self.progress_visible = true;
        self.status = owned("Starting download…");
        DownloadStep::Download(owned(entry.id.as_str()))
    }

    /// The download ended: on success the model counts as downloaded and the
    /// wizard moves to its last page; on failure the button offers a retry.
    pub fn download_finished(&mut self, result: Result<(), &str>)
        requires
            old(self).wf(),
        ensures
            final(self).wf(),
            match result {
                Ok(_) => match old(self)@.pending {
                    Some(id) => final(self)@ == download_done(old(self)@, id),
                    None => final(self)@ == old(self)@,
                },
                Err(e) => final(self)@ == (WizardView {
                    button_label: "Retry"@,
                    button_sensitive: true,
                    status: "Error: "@ + e@,
                    ..old(self)@
                }),
            },
    {
        match result {
            Ok(()) => {
                let pending = match &self.pending {
                    Some(id) => Some(owned(id.as_str())),
                    None => None,
                };
                match pending {
                    Some(id) => self.download_complete(id.as_str()),
                    None => {},
                }
            },
            Err(e) => {
                self.button_label = "Retry";
                self.button_sensitive = true;
                let mut s = owned("Error: ");
                push_str(&mut s, e);
                self.status = s;
            },
        }
    }

    /// The progress-bar text while the model downloads.
    pub fn set_download_progress(&self, percent: u32) -> (bar: String)
        ensures
            bar@ == "Downloading… "@ + percent_text(percent as nat),
    {
        let mut bar = owned("Downloading… ");
        let p = percent_string(percent);
        push_str(&mut bar, p.as_str());
        bar
    }

    /// Model `id` is on disk: mark the download done and move to the end.
    pub fn download_complete(&mut self, id: &str)
        requires
            old(self).wf(),
        ensures
            final(self).wf(),
            final(self)@ == download_done(old(self)@, id@),
    {
        self.downloaded = Some(owned(id));
        self.button_label = "Downloaded ✓";
        self.button_sensitive = false;
        self.position = WIZARD_PAGES - 1;
        self.next_visible = false;
        self.finish_visible = true;
        self.finish_sensitive = true;
    }

    /// The model that was downloaded, if any.
    pub fn downloaded_model_id(&self) -> (id: Option<String>)
        ensures
            opt_seq(id) == self@.downloaded,
    {
        match &self.downloaded {
            Some(s) => Some(owned(s.as_str())),
            None => None,
        }
    }

    /// "Get Started" was pressed; `on_disk` says whether the downloaded
    /// model's files are present. Only then is the wizard completed, and the
    /// model id to save and load returned.
    pub fn finish_clicked(&mut self, on_disk: bool) -> (id: Option<String>)
        ensures
            match old(self)@.downloaded {
                Some(d) => if on_disk {
                    final(self)@ == (WizardView { completed: true, ..old(self)@ }) && opt_seq(id)
                        == Some(d)
                } else {
                    final(self)@ == old(self)@ && id is None
                },
                None => final(self)@ == old(self)@ && id is None,
            },
            final(self).wf() == old(self).wf(),
    {
        let d = match &self.downloaded {
            Some(s) => owned(s.as_str()),
            None => {
                return None;
            },
        };
        if !on_disk {
            return None;
        }
        self.completed = true;
        Some(d)
    }

    /// Whether the wizard was completed (not just closed).
    pub fn is_completed(&self) -> (b: bool)
        ensures
            b == self@.completed,
    {
        self.completed
    }
}

} // verus!
