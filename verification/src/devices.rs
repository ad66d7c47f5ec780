//! The microphone and performance settings: which input device is active
//! and checked, the microphone test button, the thread and beam spinners
//! with their ranges, the initial prompt, and the GPU status row.

use vstd::prelude::*;
use crate::text::{owned, push_str, push_decimal, decimal, same};
use crate::system::available_cpus;

verus! {

/// An audio input device as enumerated.
pub struct AudioDevice {
    pub name: String,
    pub is_default: bool,
}

/// The device that is active: the saved choice, or else the first device
/// marked as the default.
pub open spec fn effective_device(saved: Option<Seq<char>>, devices: Seq<AudioDevice>) -> Option<
    Seq<char>,
> {
    match saved {
        Some(s) => Some(s),
        None => first_default(devices, 0),
    }
}

/// The name of the first default device at or after `from`.
pub open spec fn first_default(devices: Seq<AudioDevice>, from: int) -> Option<Seq<char>>
    decreases devices.len() - from,
{
    if from < 0 || from >= devices.len() {
        None
    } else if devices[from].is_default {
        Some(devices[from].name@)
    } else {
        first_default(devices, from + 1)
    }
}

/// The active device for a saved choice and the enumerated devices.
pub fn active_device(saved: Option<&str>, devices: &[AudioDevice]) -> (r: Option<String>)
    ensures
        match r {
            Some(s) => effective_device(match saved {
                Some(x) => Some(x@),
                None => None,
            }, devices@) == Some(s@),
            None => effective_device(match saved {
                Some(x) => Some(x@),
                None => None,
            }, devices@) is None,
        },
{
    match saved {
        Some(s) => Some(owned(s)),
        None => {
            let mut i: usize = 0;
            while i < devices.len()
                invariant
                    saved is None,
                    i <= devices@.len(),
                    first_default(devices@, 0) == first_default(devices@, i as int),
                decreases devices@.len() - i,
            {
                if devices[i].is_default {
                    return Some(owned(devices[i].name.as_str()));
                }
                i = i + 1;
            }
            None
        },
    }
}

/// One row of the device list.
pub struct DeviceRow {
    pub title: String,
    pub subtitle: &'static str,
    pub checked: bool,
}

/// Whether `rows` is the device list for `devices`: one row per device,
/// subtitled "Default device" for the default one and checked for the
/// active one; with no device, a single warning row.
pub open spec fn is_device_list(
    rows: Seq<DeviceRow>,
    devices: Seq<AudioDevice>,
    active: Option<Seq<char>>,
) -> bool {
    if devices.len() == 0 {
        rows.len() == 1 && rows[0].title@ == "No audio input devices found"@ && rows[0].subtitle@
            == "Check that a microphone is connected"@ && !rows[0].checked
    } else {
        rows.len() == devices.len() && forall|i: int|
            0 <= i < devices.len() ==> (#[trigger] rows[i]).title@ == devices[i].name@
                && rows[i].subtitle@ == (if devices[i].is_default {
                "Default device"@
            } else {
                ""@
            }) && rows[i].checked == (match active {
                Some(a) => a == devices[i].name@,
                None => false,
            })
    }
}

/// The device list: one row per device, subtitled "Default device" for the
/// default one and checked for the active one; with no device, a single
/// warning row.
pub fn device_rows(devices: &[AudioDevice], active: Option<&str>) -> (rows: Vec<DeviceRow>)
    ensures
        is_device_list(rows@, devices@, match active {
            Some(a) => Some(a@),
            None => None,
        }),
{
    let mut rows: Vec<DeviceRow> = Vec::new();
    if devices.len() == 0 {
        rows.push(
            DeviceRow {
                title: owned("No audio input devices found"),
                subtitle: "Check that a microphone is connected",
                checked: false,
            },
        );
        return rows;
    }
    let mut i: usize = 0;
    while i < devices.len()
        invariant
            i <= devices@.len(),
            rows@.len() == i,
            forall|j: int|
                0 <= j < i ==> (#[trigger] rows@[j]).title@ == devices@[j].name@ && rows@[j].subtitle@
                    == (if devices@[j].is_default {
                    "Default device"@
                } else {
                    ""@
                }) && rows@[j].checked == (match active {
                    Some(a) => a@ == devices@[j].name@,
                    None => false,
                }),
        decreases devices@.len() - i,
    {
        let d = &devices[i];
        let checked = match active {
            Some(a) => same(a, d.name.as_str()),
            None => false,
        };
        rows.push(
            DeviceRow {
                title: owned(d.name.as_str()),
                subtitle: if d.is_default {
                    "Default device"
                } else {
                    ""
                },
                checked,
            },
        );
        i = i + 1;
    }
    rows
}

/// A device row was activated: the check mark moves to that device.
pub fn select_device(rows: &mut Vec<DeviceRow>, name: &str)
    ensures
        final(rows)@.len() == old(rows)@.len(),
        forall|i: int|
            0 <= i < final(rows)@.len() ==> (#[trigger] final(rows)@[i]).checked == (
            old(rows)@[i].title@ == name@) && final(rows)@[i].title@ == old(rows)@[i].title@
                && final(rows)@[i].subtitle@ == old(rows)@[i].subtitle@,
{
    let n = rows.len();
    let mut i: usize = 0;
    while i < n
        invariant
            n == rows@.len(),
            n == old(rows)@.len(),
            i <= n,
            forall|j: int|
                0 <= j < i ==> (#[trigger] rows@[j]).checked == (old(rows)@[j].title@ == name@)
                    && rows@[j].title@ == old(rows)@[j].title@ && rows@[j].subtitle@ == old(
                    rows,
                )@[j].subtitle@,
            forall|j: int| i <= j < n ==> #[trigger] rows@[j] == old(rows)@[j],
        decreases n - i,
    {
        let checked = same(rows[i].title.as_str(), name);
        let title = owned(rows[i].title.as_str());
        let subtitle = rows[i].subtitle;
        rows.set(i, DeviceRow { title, subtitle, checked });
        i = i + 1;
    }
}

/// The microphone test button: label and whether it can be pressed.
pub fn test_button(running: bool) -> (r: (&'static str, bool))
    ensures
        r.0@ == (if running { "Listening…"@ } else { "Test"@ }),
        r.1 == !running,
{
    if running {
        ("Listening…", false)
    } else {
        ("Test", true)
    }
}

/// The test line when recording could not start.
pub fn test_start_failure(err: &str) -> (s: String)
    ensures
        s@ == "Failed: "@ + err@,
{
    let mut s = owned("Failed: ");
    push_str(&mut s, err);
    s
}

/// The test line when the recording held no samples.
pub fn test_silence() -> (s: &'static str)
    ensures
        s@ == "No audio detected"@,
{
    "No audio detected"
}

/// The microphone page: the device list and the microphone test row.
pub struct MicrophonePage {
    pub rows: Vec<DeviceRow>,
    pub testing: bool,
    pub test_subtitle: String,
}

impl MicrophonePage {
    /// A page whose devices are not enumerated yet, with the test idle.
    pub fn new() -> (p: Self)
        ensures
            p.rows@.len() == 0,
            !p.testing,
            p.test_subtitle@ == "Record a short sample to verify your microphone works"@,
    {
        MicrophonePage {
            rows: Vec::new(),
            testing: false,
            test_subtitle: owned("Record a short sample to verify your microphone works"),
        }
    }

    /// The enumerated devices arrived: the list is rebuilt, with the saved
    /// device checked, or else the default one.
    pub fn refresh_devices(&mut self, devices: &[AudioDevice], saved: Option<&str>)
        ensures
            is_device_list(final(self).rows@, devices@, effective_device(match saved {
                Some(x) => Some(x@),
                None => None,
            }, devices@)),
            final(self).testing == old(self).testing,
            final(self).test_subtitle@ == old(self).test_subtitle@,
    {
        let active = active_device(saved, devices);
        let a: Option<&str> = match &active {
            Some(name) => Some(name.as_str()),
            None => None,
        };
        self.rows = device_rows(devices, a);
    }

    /// A device row was activated: the check mark moves to it. Returns the
    /// name to save as the chosen device.
    pub fn set_selected_device(&mut self, name: &str) -> (chosen: String)
        ensures
            chosen@ == name@,
            final(self).rows@.len() == old(self).rows@.len(),
            forall|i: int|
                0 <= i < final(self).rows@.len() ==> (#[trigger] final(self).rows@[i]).checked == (
                old(self).rows@[i].title@ == name@) && final(self).rows@[i].title@ == old(
                self,
            ).rows@[i].title@ && final(self).rows@[i].subtitle@ == old(self).rows@[i].subtitle@,
            final(self).testing == old(self).testing,
            final(self).test_subtitle@ == old(self).test_subtitle@,
    {
        select_device(&mut self.rows, name);
        owned(name)
    }

    /// The test button was pressed: it reads "Listening…" and cannot be
    /// pressed again until the test ends.
    pub fn start_test(&mut self) -> (button: (&'static str, bool))
        ensures
            final(self).testing,
            button.0@ == "Listening…"@ && !button.1,
            final(self).rows@ == old(self).rows@,
            final(self).test_subtitle@ == old(self).test_subtitle@,
    {
        self.testing = true;
        test_button(true)
    }

    /// The test ended with `line` (the levels, "No audio detected" or the
    /// failure): the button is usable again and the row shows the line.
    pub fn test_finished(&mut self, line: &str) -> (button: (&'static str, bool))
        ensures
            !final(self).testing,
            button.0@ == "Test"@ && button.1,
            final(self).test_subtitle@ == line@,
            final(self).rows@ == old(self).rows@,
    {
        self.testing = false;
        self.test_subtitle = owned(line);
        test_button(false)
    }
}

/// The performance settings page.
pub struct PerformancePage {
    gpu_enabled: bool,
    cpu_fallback: bool,
    threads: u32,
    max_threads: u32,
    beam: u32,
    prompt: String,
    whisper_available: bool,
    gpu_subtitle: String,
    gpu_icon: &'static str,
    gpu_ok: bool,
}

pub struct PerformanceView {
    pub gpu_enabled: bool,
    pub cpu_fallback: bool,
    pub threads: u32,
    pub max_threads: u32,
    pub beam: u32,
    pub prompt: Seq<char>,
    pub whisper_available: bool,
    pub gpu_subtitle: Seq<char>,
    pub gpu_icon: Seq<char>,
    pub gpu_ok: bool,
}

impl View for PerformancePage {
    type V = PerformanceView;

    closed spec fn view(&self) -> PerformanceView {
        PerformanceView {
            gpu_enabled: self.gpu_enabled,
            cpu_fallback: self.cpu_fallback,
            threads: self.threads,
            max_threads: self.max_threads,
            beam: self.beam,
            prompt: self.prompt@,
            whisper_available: self.whisper_available,
            gpu_subtitle: self.gpu_subtitle@,
            gpu_icon: self.gpu_icon@,
            gpu_ok: self.gpu_ok,
        }
    }
}

/// A spinner value held within its range.
pub open spec fn clamp_to(v: int, lo: int, hi: int) -> int {
    if v < lo {
        lo
    } else if v > hi {
        hi
    } else {
        v
    }
}

/// Largest selectable beam size (the most decoders the engine runs).
pub const MAX_BEAM: u32 = 8;

fn clamp_u32(v: u32, lo: u32, hi: u32) -> (r: u32)
    requires
        lo <= hi,
    ensures
        r == clamp_to(v as int, lo as int, hi as int),
{
    if v < lo {
        lo
    } else if v > hi {
        hi
    } else {
        v
    }
}

/// The description of the CPU group for a core count.
pub fn cores_description(cpus: u32) -> (s: String)
    ensures
        s@ == "This system has "@ + decimal(cpus as nat) + " CPU cores available"@,
{
    let mut s = owned("This system has ");
    push_decimal(&mut s, cpus as u64);
    push_str(&mut s, " CPU cores available");
    s
}

impl PerformancePage {
    pub closed spec fn wf(self) -> bool {
        1 <= self.max_threads && 1 <= self.threads <= self.max_threads && 1 <= self.beam <= MAX_BEAM
    }

    /// The page on a machine with `cpus` processors: GPU and fallback on,
    /// four threads (within the range), beam size five, detection pending.
    pub fn new_for(cpus: u32) -> (p: Self)
        requires
            cpus >= 1,
        ensures
            p.wf(),
            p@.gpu_enabled,
            p@.cpu_fallback,
            p@.max_threads == cpus,
            p@.threads == clamp_to(4, 1, cpus as int),
            p@.beam == 5,
            p@.prompt.len() == 0,
            p@.whisper_available,
            p@.gpu_subtitle == "Detecting…"@,
            p@.gpu_icon == "video-display-symbolic"@,
            !p@.gpu_ok,
    {
        PerformancePage {
            gpu_enabled: true,
            cpu_fallback: true,
            threads: clamp_u32(4, 1, cpus),
            max_threads: cpus,
            beam: 5,
            prompt: String::new(),
            whisper_available: true,
            gpu_subtitle: owned("Detecting…"),
            gpu_icon: "video-display-symbolic",
            gpu_ok: false,
        }
    }

    /// The page on this machine; the thread range ends at its CPU count.
    pub fn new() -> (p: Self)
        ensures
            p.wf(),
            p@.gpu_enabled,
            p@.cpu_fallback,
            p@.beam == 5,
    {
        let cpus = available_cpus();
        let c: u32 = if cpus > u32::MAX as usize {
            u32::MAX
        } else {
            cpus as u32
        };
        Self::new_for(c)
    }

    /// Restore saved settings. A thread count of 0 means "auto" and shows
    /// every core; the spinners keep their values within range; the prompt
    /// is only filled when one is saved.
    pub fn load_from_config(
        &mut self,
        use_gpu: bool,
        cpu_fallback: bool,
        n_threads: u32,
        beam_size: u32,
        initial_prompt: Option<&str>,
    )
        requires
            old(self).wf(),
        ensures
            final(self).wf(),
            final(self)@ == (PerformanceView {
                gpu_enabled: use_gpu,
                cpu_fallback: cpu_fallback,
                threads: clamp_to(
                    if n_threads == 0 { old(self)@.max_threads as int } else { n_threads as int },
                    1,
                    old(self)@.max_threads as int,
                ) as u32,
                beam: clamp_to(beam_size as int, 1, MAX_BEAM as int) as u32,
                prompt: match initial_prompt {
                    Some(p) => p@,
                    None => old(self)@.prompt,
                },
                ..old(self)@
            }),
    {
        self.gpu_enabled = use_gpu;
        self.cpu_fallback = cpu_fallback;
        let t = if n_threads == 0 {
            self.max_threads
        } else {
            n_threads
        };
        self.threads = clamp_u32(t, 1, self.max_threads);
        self.beam = clamp_u32(beam_size, 1, MAX_BEAM);
        match initial_prompt {
            Some(p) => {
                self.prompt = owned(p);
            },
            None => {},
        }
    }

    pub fn set_gpu_enabled(&mut self, on: bool)
        ensures
            final(self).wf() == old(self).wf(),
            final(self)@ == (PerformanceView { gpu_enabled: on, ..old(self)@ }),
    {
        self.gpu_enabled = on;
    }

    pub fn set_cpu_fallback(&mut self, on: bool)
        ensures
            final(self).wf() == old(self).wf(),
            final(self)@ == (PerformanceView { cpu_fallback: on, ..old(self)@ }),
    {
        self.cpu_fallback = on;
    }

    /// Set the thread spinner (held within 1 and the CPU count).
    pub fn set_thread_count(&mut self, n: u32)
        requires
            old(self).wf(),
        ensures
            final(self).wf(),
            final(self)@ == (PerformanceView {
                threads: clamp_to(n as int, 1, old(self)@.max_threads as int) as u32,
                ..old(self)@
            }),
    {
        self.threads = clamp_u32(n, 1, self.max_threads);
    }

    /// Set the beam spinner (held within 1 and the engine's maximum).
    pub fn set_beam_size(&mut self, n: u32)
        requires
            old(self).wf(),
        ensures
            final(self).wf(),
            final(self)@ == (PerformanceView {
                beam: clamp_to(n as int, 1, MAX_BEAM as int) as u32,
                ..old(self)@
            }),
    {
        self.beam = clamp_u32(n, 1, MAX_BEAM);
    }

    /// The initial prompt entry changed.
    pub fn set_initial_prompt(&mut self, text: &str)
        ensures
            final(self).wf() == old(self).wf(),
            final(self)@ == (PerformanceView { prompt: text@, ..old(self)@ }),
    {
        self.prompt = owned(text);
    }

    pub fn get_gpu_enabled(&self) -> (b: bool)
        ensures
            b == self@.gpu_enabled,
    {
        self.gpu_enabled
    }

    pub fn get_cpu_fallback(&self) -> (b: bool)
        ensures
            b == self@.cpu_fallback,
    {
        self.cpu_fallback
    }

    pub fn get_thread_count(&self) -> (n: u32)
        ensures
            n == self@.threads,
    {
        self.threads
    }

    pub fn get_beam_size(&self) -> (n: u32)
        ensures
            n == self@.beam,
    {
        self.beam
    }

    /// The initial prompt to send: the entry text, or none when it is empty.
    pub fn get_initial_prompt(&self) -> (p: Option<String>)
        ensures
            match p {
                Some(s) => s@ == self@.prompt && s@.len() > 0,
                None => self@.prompt.len() == 0,
            },
    {
        if self.prompt.unicode_len() == 0 {
            None
        } else {
            Some(owned(self.prompt.as_str()))
        }
    }

    /// Whisper-only settings (beam size, temperature, initial prompt) can
    /// be used only with the Whisper engine.
    pub fn set_whisper_settings_available(&mut self, available: bool)
        ensures
            final(self).wf() == old(self).wf(),
            final(self)@ == (PerformanceView { whisper_available: available, ..old(self)@ }),
    {
        self.whisper_available = available;
    }

    /// The GPU probe reported a (shortened) GPU name, or none.
    pub fn gpu_detected(&mut self, name: Option<&str>)
        ensures
            final(self).wf() == old(self).wf(),
            final(self)@ == (match name {
                Some(n) => PerformanceView {
                    gpu_subtitle: n@,
                    gpu_icon: "object-select-symbolic"@,
                    gpu_ok: true,
                    ..old(self)@
                },
                None => PerformanceView {
                    gpu_subtitle: "No GPU detected — using CPU"@,
                    gpu_icon: "dialog-warning-symbolic"@,
                    ..old(self)@
                },
            }),
    {
        match name {
            Some(n) => {
                self.gpu_subtitle = owned(n);
                self.gpu_icon = "object-select-symbolic";
                self.gpu_ok = true;
            },
            None => {
                self.gpu_subtitle = owned("No GPU detected — using CPU");
                self.gpu_icon = "dialog-warning-symbolic";
            },
        }
    }
}

} // verus!
