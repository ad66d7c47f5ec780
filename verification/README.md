# speech_to_text

The verified core of a desktop speech-to-text application: the state and
decisions behind its windows and settings pages, with Verus contracts.

- `src/` — the library, proved with Verus. Each page or widget is a view
  model (`main_window`, `transcript`, `controls`, `mini_panel`, `model_page`,
  `llm_settings`, `history`, …) whose operations state their effect on the
  model exactly; `text` and `version` hold the text rules (Unicode word
  counting, trimming, version comparison); `pub proof fn law_*` items state
  the properties that hold across operations.
- `app/` — ordinary Rust around it: the history file, GPU probing through
  `nvidia-smi`, `lspci` and sysfs, the autostart entry, the release check,
  and display values computed from floating-point levels.
- `tests/` — tests of the library on concrete values.

The widget trees of the GTK4/libadwaita front end are not part of this
crate; they present the library's view models.
