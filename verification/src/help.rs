//! The help page as a document: every block with its text, its sections in
//! order, the numbered steps, the flow diagram with its arrows, the
//! two-column tables laid out on a grid, and the data of the Whisper model
//! chart.

use vstd::prelude::*;
use crate::text::{decimal, decimal_string, owned};

verus! {

/// One block of the help page.
pub enum HelpBlock {
    Heading(&'static str),
    Subheading(&'static str),
    Body(&'static str),
    /// Numbered steps.
    Steps(Vec<&'static str>),
    /// Pills joined by arrows.
    Flow(Vec<&'static str>),
    /// Titled feature cards.
    Cards(Vec<(&'static str, &'static str)>),
    /// The legend and chart of the model sizes.
    ModelChart,
    /// A table with two column headers and its rows.
    Table(&'static str, &'static str, Vec<(&'static str, &'static str)>),
    Bullets(Vec<&'static str>),
    /// A coloured box: its kind ("success" or "warning"), title and text.
    Callout(&'static str, &'static str, &'static str),
}

/// The view of a help block: its texts, with lists as sequences.
pub enum BlockView {
    Heading(&'static str),
    Subheading(&'static str),
    Body(&'static str),
    Steps(Seq<&'static str>),
    Flow(Seq<&'static str>),
    Cards(Seq<(&'static str, &'static str)>),
    ModelChart,
    Table(&'static str, &'static str, Seq<(&'static str, &'static str)>),
    Bullets(Seq<&'static str>),
    Callout(&'static str, &'static str, &'static str),
}

impl View for HelpBlock {
    type V = BlockView;

    open spec fn view(&self) -> BlockView {
        match self {
            HelpBlock::Heading(h) => BlockView::Heading(*h),
            HelpBlock::Subheading(h) => BlockView::Subheading(*h),
            HelpBlock::Body(t) => BlockView::Body(*t),
            HelpBlock::Steps(v) => BlockView::Steps(v@),
            HelpBlock::Flow(v) => BlockView::Flow(v@),
            HelpBlock::Cards(v) => BlockView::Cards(v@),
            HelpBlock::ModelChart => BlockView::ModelChart,
            HelpBlock::Table(a, b, v) => BlockView::Table(*a, *b, v@),
            HelpBlock::Bullets(v) => BlockView::Bullets(v@),
            HelpBlock::Callout(k, t, x) => BlockView::Callout(*k, *t, *x),
        }
    }
}

/// The views of a list of blocks.
pub open spec fn block_views(blocks: Seq<HelpBlock>) -> Seq<BlockView> {
    blocks.map_values(|b: HelpBlock| b@)
}

/// The whole help page, block by block, with every text.
pub open spec fn help_blocks() -> Seq<BlockView> {
    seq![
        BlockView::Heading("Quick start"),
        BlockView::Steps(
            seq![
                "Open Settings → Model and download a Whisper model (start with Base).",
                "On the Transcription page press Record, speak, then press Stop.",
                "Your text appears and is copied to the clipboard automatically.",
                "(Optional) Turn on Improve with AI to clean up grammar & punctuation.",
            ],
        ),
        BlockView::Heading("Recording"),
        BlockView::Body(
            "Press Record, speak, and press Stop to transcribe. Use Pause to hold without losing the take, or Cancel to discard it. You can also drag an audio file (WAV, MP3, FLAC, OGG, M4A) onto the transcript to transcribe it. The confidence bar at the bottom shows how sure the model is.",
        ),
        BlockView::Flow(seq!["⏺ Record", "Speak", "⏹ Stop", "Transcribe", "📋 Clipboard"]),
        BlockView::Heading("Engines & models — which to choose"),
        BlockView::Body(
            "Three local engines, all offline after download. Whisper is the default and most flexible.",
        ),
        BlockView::Cards(
            seq![
                (
                    "Whisper",
                    "OpenAI's model via whisper.cpp. 99 languages, auto-detect, translate-to-English, timestamps, GPU support. Best all-round choice.",
                ),
                (
                    "Qwen3-ASR",
                    "Alibaba's model. 30+ languages including Greek, auto-detect. Two sizes (0.6B / 1.7B). Good accuracy, CPU-only, no timestamps.",
                ),
                (
                    "Cohere",
                    "Local Cohere runtime. Solid quality, but the language must be set (no auto-detect) and there are no per-segment timestamps.",
                ),
                (
                    "Quantized (Q5)",
                    "Every Whisper size has a Q5 variant — about 60% smaller with near-identical accuracy. Pick these if disk or RAM is tight.",
                ),
            ],
        ),
        BlockView::Subheading("Whisper model sizes"),
        BlockView::ModelChart,
        BlockView::Body(
            "Bigger = more accurate but slower and heavier. Large v3 Turbo is the sweet spot: near Large-v3 accuracy, several times faster.",
        ),
        BlockView::Table(
            "If you want…",
            "Choose",
            seq![
                ("Quick tests / very low resources", "Tiny or Base (or their Q5)"),
                ("A good everyday balance", "Small or Large v3 Turbo"),
                ("Best possible accuracy, have the RAM/GPU", "Large v3"),
                ("Greek / non-English everyday dictation", "Whisper Small/Turbo or Qwen3-ASR"),
            ],
        ),
        BlockView::Heading("Languages & translation"),
        BlockView::Body(
            "Whisper auto-detects the language by default. If you always speak one language, set it explicitly in Language settings — it's faster and avoids mis-detection on short clips. Translate converts speech to English (Whisper only; English is the only target).",
        ),
        BlockView::Heading("Improve with AI"),
        BlockView::Body(
            "Optionally send the transcript to an LLM to clean it up, summarize, translate, or reshape it. Works with any OpenAI-compatible server (LM Studio, Ollama, vLLM, OpenAI) — set it up in LLM settings.",
        ),
        BlockView::Bullets(
            seq![
                "Chips under the transcript run a preset in one tap — Clean up, Key points, Formal, Short, Long, Translate…",
                "The Raw ⇄ Improved switch keeps the original — AI versions are added, never destroyed.",
                "Auto-improve runs your active preset on every dictation automatically.",
            ],
        ),
        BlockView::Callout(
            "warning",
            "Privacy",
            "With the LLM on, transcript text leaves your device for the endpoint you configured (a local server stays on your machine; a cloud one does not). You're asked to consent the first time.",
        ),
        BlockView::Heading("Personal dictionary"),
        BlockView::Body(
            "Teach the app your names, jargon and acronyms (Dictionary settings). Terms bias Whisper toward those words; replacements fix consistent spellings (e.g. heard \"cube\" → \"Kube\"). Everything stays on your device.",
        ),
        BlockView::Heading("Voice edit"),
        BlockView::Body(
            "On a result, press the voice-edit button and just say what to change — \"make it shorter\", \"turn into bullets\", \"reply politely\". The app transcribes your instruction and applies it to the text.",
        ),
        BlockView::Heading("Live text & progress"),
        BlockView::Body(
            "Turn on Live transcription (Dictation settings, Whisper only) to watch the text appear while you speak, with a real progress bar instead of a spinner. The final text is always the full-accuracy result produced when you press Stop.",
        ),
        BlockView::Heading("Mini panel & global dictation"),
        BlockView::Body(
            "A global shortcut opens a compact floating panel so you can dictate into any app: it records, transcribes, optionally polishes, and pastes the finished text where your cursor is. Enable it and set the shortcut in Dictation settings.",
        ),
        BlockView::Heading("Performance"),
        BlockView::Bullets(
            seq![
                "GPU acceleration (NVIDIA/AMD) speeds up Whisper a lot — enable it if you have a supported card.",
                "Threads: more CPU threads = faster, higher load. The default adapts to your CPU.",
                "Beam size: higher = a little more accurate but slower; 1 = fastest (greedy).",
            ],
        ),
        BlockView::Callout(
            "success",
            "Tip",
            "The GPU card in the sidebar shows your card and live VRAM use — handy to check there's room before a large model loads.",
        ),
        BlockView::Heading("Privacy"),
        BlockView::Body(
            "Transcription is 100% local. Audio never leaves your device. The only network use is opt-in: the LLM features (your configured endpoint) and an optional startup update check (GitHub). API keys are stored in the system keyring, never in plain text.",
        ),
        BlockView::Heading("Troubleshooting"),
        BlockView::Table(
            "Symptom",
            "Try",
            seq![
                (
                    "\"No clear speech detected\"",
                    "Speak closer to the mic; pick the right input in Microphone settings; record in a quieter environment.",
                ),
                (
                    "Nothing happens on Stop",
                    "Check a model is downloaded (Model settings) and the engine is set up. Watch the notification at the top of the window for the exact error.",
                ),
                (
                    "Wrong language / gibberish",
                    "Set the language explicitly, or switch engine. For Cohere the language must be set (no auto-detect).",
                ),
                (
                    "Slow transcription",
                    "Use a smaller / Turbo / Q5 model, enable GPU, or raise the thread count.",
                ),
            ],
        ),
    ]
}

/// The headings of the help page, in order.
pub open spec fn help_headings() -> Seq<Seq<char>> {
    seq![
        "Quick start"@,
        "Recording"@,
        "Engines & models — which to choose"@,
        "Languages & translation"@,
        "Improve with AI"@,
        "Personal dictionary"@,
        "Voice edit"@,
        "Live text & progress"@,
        "Mini panel & global dictation"@,
        "Performance"@,
        "Privacy"@,
        "Troubleshooting"@,
    ]
}

/// The headings among a list of blocks, in order.
pub open spec fn headings_of(blocks: Seq<HelpBlock>) -> Seq<Seq<char>>
    decreases blocks.len(),
{
    if blocks.len() == 0 {
        Seq::empty()
    } else {
        let rest = headings_of(blocks.drop_last());
        match blocks.last() {
            HelpBlock::Heading(h) => rest.push(h@),
            _ => rest,
        }
    }
}

fn push_block(v: &mut Vec<HelpBlock>, b: HelpBlock)
    ensures
        final(v)@ == old(v)@.push(b),
        headings_of(final(v)@) == match b {
            HelpBlock::Heading(h) => headings_of(old(v)@).push(h@),
            _ => headings_of(old(v)@),
        },
{
    let ghost before = v@;
    v.push(b);
    assert(v@.drop_last() =~= before);
}

/// The page title and subtitle.
pub fn help_title() -> (r: (&'static str, &'static str))
    ensures
        r.0@ == "Help"@,
        r.1@ == "Everything you need to get great transcriptions — and choose the right settings."@,
{
    ("Help", "Everything you need to get great transcriptions — and choose the right settings.")
}

/// The blocks of the help page, in order.
pub fn help_document() -> (v: Vec<HelpBlock>)
    ensures
        block_views(v@) == help_blocks(),
        headings_of(v@) == help_headings(),
{
    let mut v: Vec<HelpBlock> = Vec::new();
    push_block(&mut v, HelpBlock::Heading("Quick start"));
    push_block(
        &mut v,
        HelpBlock::Steps(
            vec![
                "Open Settings → Model and download a Whisper model (start with Base).",
                "On the Transcription page press Record, speak, then press Stop.",
                "Your text appears and is copied to the clipboard automatically.",
                "(Optional) Turn on Improve with AI to clean up grammar & punctuation.",
            ],
        ),
    );
    push_block(&mut v, HelpBlock::Heading("Recording"));
    push_block(
        &mut v,
        HelpBlock::Body(
            "Press Record, speak, and press Stop to transcribe. Use Pause to hold without losing the take, or Cancel to discard it. You can also drag an audio file (WAV, MP3, FLAC, OGG, M4A) onto the transcript to transcribe it. The confidence bar at the bottom shows how sure the model is.",
        ),
    );
    push_block(
        &mut v,
        HelpBlock::Flow(vec!["⏺ Record", "Speak", "⏹ Stop", "Transcribe", "📋 Clipboard"]),
    );
    push_block(&mut v, HelpBlock::Heading("Engines & models — which to choose"));
    push_block(
        &mut v,
        HelpBlock::Body(
            "Three local engines, all offline after download. Whisper is the default and most flexible.",
        ),
    );
    push_block(
        &mut v,
        HelpBlock::Cards(
            vec![
                (
                    "Whisper",
                    "OpenAI's model via whisper.cpp. 99 languages, auto-detect, translate-to-English, timestamps, GPU support. Best all-round choice.",
                ),
                (
                    "Qwen3-ASR",
                    "Alibaba's model. 30+ languages including Greek, auto-detect. Two sizes (0.6B / 1.7B). Good accuracy, CPU-only, no timestamps.",
                ),
                (
                    "Cohere",
                    "Local Cohere runtime. Solid quality, but the language must be set (no auto-detect) and there are no per-segment timestamps.",
                ),
                (
                    "Quantized (Q5)",
                    "Every Whisper size has a Q5 variant — about 60% smaller with near-identical accuracy. Pick these if disk or RAM is tight.",
                ),
            ],
        ),
    );
    push_block(&mut v, HelpBlock::Subheading("Whisper model sizes"));
    push_block(&mut v, HelpBlock::ModelChart);
    push_block(
        &mut v,
        HelpBlock::Body(
            "Bigger = more accurate but slower and heavier. Large v3 Turbo is the sweet spot: near Large-v3 accuracy, several times faster.",
        ),
    );
    push_block(
        &mut v,
        HelpBlock::Table(
            "If you want…",
            "Choose",
            vec![
                ("Quick tests / very low resources", "Tiny or Base (or their Q5)"),
                ("A good everyday balance", "Small or Large v3 Turbo"),
                ("Best possible accuracy, have the RAM/GPU", "Large v3"),
                ("Greek / non-English everyday dictation", "Whisper Small/Turbo or Qwen3-ASR"),
            ],
        ),
    );
    push_block(&mut v, HelpBlock::Heading("Languages & translation"));
    push_block(
        &mut v,
        HelpBlock::Body(
            "Whisper auto-detects the language by default. If you always speak one language, set it explicitly in Language settings — it's faster and avoids mis-detection on short clips. Translate converts speech to English (Whisper only; English is the only target).",
        ),
    );
    push_block(&mut v, HelpBlock::Heading("Improve with AI"));
    push_block(
        &mut v,
        HelpBlock::Body(
            "Optionally send the transcript to an LLM to clean it up, summarize, translate, or reshape it. Works with any OpenAI-compatible server (LM Studio, Ollama, vLLM, OpenAI) — set it up in LLM settings.",
        ),
    );
    push_block(
        &mut v,
        HelpBlock::Bullets(
            vec![
                "Chips under the transcript run a preset in one tap — Clean up, Key points, Formal, Short, Long, Translate…",
                "The Raw ⇄ Improved switch keeps the original — AI versions are added, never destroyed.",
                "Auto-improve runs your active preset on every dictation automatically.",
            ],
        ),
    );
    push_block(
        &mut v,
        HelpBlock::Callout(
            "warning",
            "Privacy",
            "With the LLM on, transcript text leaves your device for the endpoint you configured (a local server stays on your machine; a cloud one does not). You're asked to consent the first time.",
        ),
    );
    push_block(&mut v, HelpBlock::Heading("Personal dictionary"));
    push_block(
        &mut v,
        HelpBlock::Body(
            "Teach the app your names, jargon and acronyms (Dictionary settings). Terms bias Whisper toward those words; replacements fix consistent spellings (e.g. heard \"cube\" → \"Kube\"). Everything stays on your device.",
        ),
    );
    push_block(&mut v, HelpBlock::Heading("Voice edit"));
    push_block(
        &mut v,
        HelpBlock::Body(
            "On a result, press the voice-edit button and just say what to change — \"make it shorter\", \"turn into bullets\", \"reply politely\". The app transcribes your instruction and applies it to the text.",
        ),
    );
    push_block(&mut v, HelpBlock::Heading("Live text & progress"));
    push_block(
        &mut v,
        HelpBlock::Body(
            "Turn on Live transcription (Dictation settings, Whisper only) to watch the text appear while you speak, with a real progress bar instead of a spinner. The final text is always the full-accuracy result produced when you press Stop.",
        ),
    );
    push_block(&mut v, HelpBlock::Heading("Mini panel & global dictation"));
    push_block(
        &mut v,
        HelpBlock::Body(
            "A global shortcut opens a compact floating panel so you can dictate into any app: it records, transcribes, optionally polishes, and pastes the finished text where your cursor is. Enable it and set the shortcut in Dictation settings.",
        ),
    );
    push_block(&mut v, HelpBlock::Heading("Performance"));
    push_block(
        &mut v,
        HelpBlock::Bullets(
            vec![
                "GPU acceleration (NVIDIA/AMD) speeds up Whisper a lot — enable it if you have a supported card.",
                "Threads: more CPU threads = faster, higher load. The default adapts to your CPU.",
                "Beam size: higher = a little more accurate but slower; 1 = fastest (greedy).",
            ],
        ),
    );
    push_block(
        &mut v,
        HelpBlock::Callout(
            "success",
            "Tip",
            "The GPU card in the sidebar shows your card and live VRAM use — handy to check there's room before a large model loads.",
        ),
    );
    push_block(&mut v, HelpBlock::Heading("Privacy"));
    push_block(
        &mut v,
        HelpBlock::Body(
            "Transcription is 100% local. Audio never leaves your device. The only network use is opt-in: the LLM features (your configured endpoint) and an optional startup update check (GitHub). API keys are stored in the system keyring, never in plain text.",
        ),
    );
    push_block(&mut v, HelpBlock::Heading("Troubleshooting"));
    push_block(
        &mut v,
        HelpBlock::Table(
            "Symptom",
            "Try",
            vec![
                (
                    "\"No clear speech detected\"",
                    "Speak closer to the mic; pick the right input in Microphone settings; record in a quieter environment.",
                ),
                (
                    "Nothing happens on Stop",
                    "Check a model is downloaded (Model settings) and the engine is set up. Watch the notification at the top of the window for the exact error.",
                ),
                (
                    "Wrong language / gibberish",
                    "Set the language explicitly, or switch engine. For Cohere the language must be set (no auto-detect).",
                ),
                (
                    "Slow transcription",
                    "Use a smaller / Turbo / Q5 model, enable GPU, or raise the thread count.",
                ),
            ],
        ),
    );
    assert(headings_of(v@) =~= help_headings());
    assert(block_views(v@) =~= help_blocks());
    v
}

/// The number shown beside step `i` (counting from 1).
pub fn step_number(i: usize) -> (s: String)
    requires
        i < usize::MAX,
    ensures
        s@ == decimal((i + 1) as nat),
{
    decimal_string((i + 1) as u64)
}

/// One element of a flow diagram.
#[derive(Debug, Clone, Copy, PartialEq, Eq)]
pub enum FlowItem {
    /// The pill of step `i`.
    Pill(usize),
    /// An arrow between two pills.
    Arrow,
}

/// The row of a flow diagram with `n` steps: pills in order, an arrow
/// between each two.
pub fn flow_items(n: usize) -> (v: Vec<FlowItem>)
    ensures
        n == 0 ==> v@.len() == 0,
        n > 0 ==> v@.len() == 2 * n - 1,
        forall|k: int|
            0 <= k < v@.len() ==> #[trigger] v@[k] == (if k % 2 == 0 {
                FlowItem::Pill((k / 2) as usize)
            } else {
                FlowItem::Arrow
            }),
{
    let mut v: Vec<FlowItem> = Vec::new();
    let mut i: usize = 0;
    while i < n
        invariant
            i <= n,
            i == 0 ==> v@.len() == 0,
            i > 0 ==> v@.len() == 2 * i - 1,
            forall|k: int|
                0 <= k < v@.len() ==> #[trigger] v@[k] == (if k % 2 == 0 {
                    FlowItem::Pill((k / 2) as usize)
                } else {
                    FlowItem::Arrow
                }),
        decreases n - i,
    {
        if i > 0 {
            v.push(FlowItem::Arrow);
        }
        v.push(FlowItem::Pill(i));
        i = i + 1;
    }
    v
}

/// Where a table's cells sit on its grid: the headers on row 0; before the
/// `k`-th data row a separator on grid row `2k + 1`, the row itself on
/// `2k + 2`.
pub fn table_grid_rows(k: usize) -> (r: (i32, i32))
    requires
        k < 0x3FFF_FFFF,
    ensures
        r.0 == 2 * k + 1,
        r.1 == 2 * k + 2,
{
    let k32 = k as i32;
    (2 * k32 + 1, 2 * k32 + 2)
}

/// One bar pair of the model chart: accuracy and speed in percent of the
/// track, and the download size.
pub struct ChartRow {
    pub name: &'static str,
    pub accuracy_pct: u32,
    pub speed_pct: u32,
    pub size: &'static str,
}

/// Accuracy and speed bars of the model chart, in percent, smallest model
/// first.
pub open spec fn chart_bars() -> Seq<(u32, u32)> {
    seq![(18u32, 96u32), (34, 80), (55, 58), (76, 38), (96, 22), (90, 66)]
}

/// The Whisper model chart, smallest model first: the five sizes gain
/// accuracy and lose speed in order, and Large v3 Turbo closes the chart.
pub fn model_chart_rows() -> (v: Vec<ChartRow>)
    ensures
        v@.len() == 6,
        forall|i: int|
            0 <= i < 6 ==> (#[trigger] v@[i]).accuracy_pct == chart_bars()[i].0 && v@[i].speed_pct
                == chart_bars()[i].1,
        v@[0].name@ == "Tiny"@ && v@[0].size@ == "~75 MB"@,
        v@[1].name@ == "Base"@ && v@[1].size@ == "~142 MB"@,
        v@[2].name@ == "Small"@ && v@[2].size@ == "~466 MB"@,
        v@[3].name@ == "Medium"@ && v@[3].size@ == "~1.5 GB"@,
        v@[4].name@ == "Large v3"@ && v@[4].size@ == "~3 GB"@,
        v@[5].name@ == "Large v3 Turbo"@ && v@[5].size@ == "~1.6 GB"@,
        forall|i: int| 0 <= i < 6 ==> #[trigger] v@[i].accuracy_pct <= 100 && v@[i].speed_pct <= 100,
        forall|i: int, j: int| 0 <= i < j < 5 ==> v@[i].accuracy_pct < v@[j].accuracy_pct,
        forall|i: int, j: int| 0 <= i < j < 5 ==> v@[i].speed_pct > v@[j].speed_pct,
{
    let v = vec![
        ChartRow { name: "Tiny", accuracy_pct: 18, speed_pct: 96, size: "~75 MB" },
        ChartRow { name: "Base", accuracy_pct: 34, speed_pct: 80, size: "~142 MB" },
        ChartRow { name: "Small", accuracy_pct: 55, speed_pct: 58, size: "~466 MB" },
        ChartRow { name: "Medium", accuracy_pct: 76, speed_pct: 38, size: "~1.5 GB" },
        ChartRow { name: "Large v3", accuracy_pct: 96, speed_pct: 22, size: "~3 GB" },
        ChartRow { name: "Large v3 Turbo", accuracy_pct: 90, speed_pct: 66, size: "~1.6 GB" },
    ];
    assert forall|i: int|
        0 <= i < 6 implies (#[trigger] v@[i]).accuracy_pct == chart_bars()[i].0 && v@[i].speed_pct
        == chart_bars()[i].1 by {
        if i == 0 {
        } else if i == 1 {
        } else if i == 2 {
        } else if i == 3 {
        } else if i == 4 {
        } else {
        }
    }
    v
}

/// The chart legend: series names.
pub fn chart_legend() -> (r: (&'static str, &'static str))
    ensures
        r.0@ == "Accuracy"@,
        r.1@ == "Speed"@,
{
    ("Accuracy", "Speed")
}

/// The help page.
pub struct HelpPage {
    pub blocks: Vec<HelpBlock>,
}

impl HelpPage {
    pub fn new() -> (p: Self)
        ensures
            block_views(p.blocks@) == help_blocks(),
            headings_of(p.blocks@) == help_headings(),
    {
        HelpPage { blocks: help_document() }
    }
}

} // verus!
