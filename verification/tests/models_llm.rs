use speech_to_text::help::{flow_items, model_chart_rows, step_number, table_grid_rows, FlowItem, HelpBlock, HelpPage};
use speech_to_text::model_page::ModelRow;
use speech_to_text::gpu::{
    first_gpu_name, is_drm_card, keep_two_names, lspci_line_name, lspci_line_name_lowered,
    marketing_name, parse_smi_output, vendor_from_lowercase, with_manufacturer,
    shorten_gpu_name, shorten_gpu_name_public, split_gpu_brand_model, status_class, uses_amdgpu,
    GpuStatusPanel,
};
use speech_to_text::llm_settings::{
    model_choices, models_status, preset_model_choices, preset_model_position, provider_choice,
    provider_index, provider_label, translate_choice, translate_entries, translate_position,
    EnableDecision, LlmPreset, LlmPage, api_key_action,
};
use speech_to_text::model_page::{
    engine_for_selection, engine_index, row_look, token_action, ButtonLabel, CatalogEntry,
    ModelPage, ModelState, TokenAction, WeightsClick,
};
use speech_to_text::wizard::{model_choice_label, DownloadStep, WelcomeWizard};

fn catalog() -> Vec<CatalogEntry> {
    vec![
        CatalogEntry { id: "tiny".to_string(), downloaded: false },
        CatalogEntry { id: "base".to_string(), downloaded: true },
    ]
}

#[test]
fn engine_selection_round_trip() {
    assert_eq!(engine_index(engine_for_selection(1)), 1);
    assert_eq!(engine_index(engine_for_selection(0)), 0);
    assert_eq!(engine_for_selection(7), "whisper");
}

#[test]
fn download_success_then_delete() {
    let mut p = ModelPage::new("whisper", &catalog(), false, false);
    assert_eq!(p.button(0).label, ButtonLabel::Download);
    assert_eq!(p.button(1).label, ButtonLabel::Downloaded);
    assert!(p.button(1).delete_visible);
    let id = p.start_download(0);
    assert_eq!(id, "tiny");
    assert_eq!(p.button(0).label, ButtonLabel::Downloading);
    assert!(!p.button(0).sensitive);
    let (report, load) = p.finish_download(0, &Ok(()));
    assert!(report.full);
    assert_eq!(report.text, "Download complete!");
    assert_eq!(load, Some("tiny".to_string()));
    assert!(p.button(0).delete_visible && p.button(0).success);
    assert_eq!(p.delete_finished(0, "cancel", true), None);
    assert_eq!(p.delete_finished(0, "delete", true), Some("tiny".to_string()));
    assert_eq!(p.button(0).label, ButtonLabel::Download);
    assert!(!p.button(0).delete_visible);
}

#[test]
fn download_failures_offer_retry_or_download() {
    let mut p = ModelPage::new("cohere", &catalog(), false, false);
    p.start_download(0);
    assert!(p.cancel_clicked());
    let (report, load) = p.finish_download(0, &Err("download cancelled by user".to_string()));
    assert_eq!(report.text, "Download cancelled");
    assert!(load.is_none());
    assert_eq!(p.button(0).label, ButtonLabel::Download);
    assert!(p.button(0).sensitive);
    p.start_download(0);
    let (report, _) = p.finish_download(0, &Err("HTTP 404".to_string()));
    assert_eq!(report.text, "Error: HTTP 404");
    assert_eq!(p.button(0).label, ButtonLabel::Retry);
    assert!(!p.cancel_clicked());
}

#[test]
fn cohere_weights_need_token_and_runtime() {
    let mut p = ModelPage::new("cohere", &catalog(), false, false);
    assert_eq!(p.runtime_status(), "❌ Not installed");
    assert_eq!(p.weights_clicked(""), WeightsClick::NeedToken);
    assert_eq!(p.weights_clicked("hf_abc"), WeightsClick::NeedRuntime);
    p.start_runtime_download();
    let r = p.finish_runtime_download(&Ok(()));
    assert_eq!(r.text, "Runtime download complete!");
    assert_eq!(p.runtime_status(), "✅ Installed");
    assert_eq!(p.weights_clicked("hf_abc"), WeightsClick::Start("hf_abc".to_string()));
    let r = p.finish_weights_download(&Err("disk full".to_string()));
    assert_eq!(r.text, "Error: disk full");
    assert_eq!(p.weights_status(), "❌ Not downloaded");
    let r = p.finish_weights_download(&Ok(()));
    assert!(r.full);
    assert_eq!(p.weights_status(), "✅ Downloaded");
}

#[test]
fn token_entry_actions() {
    assert_eq!(token_action(""), TokenAction::Delete);
    assert_eq!(token_action("hf_x"), TokenAction::Store("hf_x".to_string()));
}

#[test]
fn model_rows_per_state() {
    assert_eq!(row_look(ModelState::Downloaded).label, "Select");
    assert!(row_look(ModelState::Downloading).progress_visible);
    assert!(row_look(ModelState::Selected).suggested);
    assert!(!row_look(ModelState::Selected).sensitive);
}

#[test]
fn providers_fill_urls() {
    assert_eq!(provider_label(1), "Ollama");
    assert_eq!(provider_choice(1), Some("http://localhost:11434/v1"));
    assert_eq!(provider_choice(4), None);
    assert_eq!(provider_choice(9), None);
    for i in 0..4u32 {
        assert_eq!(provider_index(provider_choice(i).unwrap()), i as usize);
    }
    assert_eq!(provider_index("http://example.org/v1"), 4);
    assert_eq!(provider_index(""), 4);
}

#[test]
fn translate_targets_round_trip() {
    let entries = translate_entries();
    assert_eq!(entries.len(), 12);
    assert_eq!(entries[0], "— not a translate preset —");
    for sel in 1..=11u32 {
        let lang = translate_choice(sel).unwrap();
        assert_eq!(translate_position(Some(&lang)), sel);
    }
    assert_eq!(translate_choice(0), None);
    assert_eq!(translate_position(Some("Klingon")), 0);
    assert_eq!(translate_position(None), 0);
}

fn preset(name: &str) -> LlmPreset {
    LlmPreset {
        name: name.to_string(),
        prompt: format!("prompt of {name}"),
        model: None,
        temperature_bits: Some(0.3f32.to_bits()),
        translate_to: None,
    }
}

fn settings() -> LlmPage {
    LlmPage {
        enabled: false,
        consent_given: false,
        consent_endpoint: None,
        api_url: "http://localhost:1234/v1".to_string(),
        model: String::new(),
        presets: vec![preset("Clean up"), preset("Short")],
        active_preset: 0,
        auto_apply: false,
        auto_summary: false,
        selection_enabled: false,
        selection_shortcut: "<Ctrl><Alt>i".to_string(),
    }
}

#[test]
fn presets_add_duplicate_delete() {
    let mut s = settings();
    assert_eq!(s.add_preset(), 2);
    assert_eq!(s.presets[2].name, "New preset");
    assert_eq!(s.duplicate_preset(0), Some(1));
    assert_eq!(s.presets[1].name, "Clean up (copy)");
    assert_eq!(s.presets[1].prompt, "prompt of Clean up");
    assert_eq!(s.presets[1].temperature_bits, Some(0.3f32.to_bits()));
    assert_eq!(s.active_preset, 1);
    // Deleting the copy restores the list.
    assert_eq!(s.delete_preset(1), Some(1));
    let names: Vec<&str> = s.presets.iter().map(|p| p.name.as_str()).collect();
    assert_eq!(names, vec!["Clean up", "Short", "New preset"]);
    assert_eq!(s.delete_preset(2), Some(1));
    assert_eq!(s.delete_preset(1), Some(0));
    assert_eq!(s.delete_preset(0), None);
    assert_eq!(s.presets.len(), 1);
    assert_eq!(s.duplicate_preset(5), None);
}

#[test]
fn preset_edits_touch_active_only() {
    let mut s = settings();
    s.select_preset(1);
    assert!(!s.rename_active("   "));
    assert!(s.rename_active("Tiny"));
    s.set_active_prompt("Be brief.");
    s.set_active_model(Some("llama3"));
    s.set_active_translate(Some("Greek"));
    s.set_active_temperature(None);
    assert_eq!(s.presets[1].name, "Tiny");
    assert_eq!(s.presets[1].prompt, "Be brief.");
    assert_eq!(s.presets[1].model.as_deref(), Some("llama3"));
    assert_eq!(s.presets[1].translate_to.as_deref(), Some("Greek"));
    assert_eq!(s.presets[1].temperature_bits, None);
    assert_eq!(s.presets[0].name, "Clean up");
    assert_eq!(s.preset_names(), vec!["Clean up", "Tiny"]);
    s.active_preset = 9;
    assert_eq!(s.clamped_active(), 1);
    assert!(!s.rename_active("X"));
}

#[test]
fn consent_is_withdrawn_when_the_scope_changes() {
    let mut s = settings();
    s.enabled = true;
    s.consent_given = true;
    s.consent_endpoint = Some("localhost:1234".to_string());
    assert!(!s.save_endpoint("http://localhost:1234/v1/", Some("localhost:1234"), Some("localhost:1234")));
    assert!(s.enabled);
    assert!(s.save_endpoint("https://api.openai.com/v1", Some("localhost:1234"), Some("api.openai.com")));
    assert!(!s.enabled && !s.consent_given && s.consent_endpoint.is_none());
    assert_eq!(s.api_url, "https://api.openai.com/v1");
}

#[test]
fn enabling_asks_for_consent_once() {
    let mut s = settings();
    assert_eq!(s.enable_requested(Some("localhost:1234")), EnableDecision::AskConsent);
    assert_eq!(s.enable_requested(None), EnableDecision::NotAllowed);
    assert!(s.consent_answered("enable", "localhost:1234"));
    assert!(s.enabled && s.consent_given);
    s.disable();
    assert!(!s.enabled);
    assert_eq!(s.enable_requested(Some("localhost:1234")), EnableDecision::EnableNow);
    assert!(s.enable_now());
    assert!(s.enabled);
    let mut t = settings();
    assert!(!t.consent_answered("cancel", "localhost:1234"));
    assert!(!t.enabled);
    assert!(!t.set_selection_shortcut(" "));
    assert!(t.set_selection_shortcut("<Super>t"));
}

#[test]
fn model_lists_keep_the_saved_model() {
    let models = vec!["a".to_string(), "b".to_string()];
    let (list, pos) = model_choices(&models, "custom");
    assert_eq!(list, vec!["custom", "a", "b"]);
    assert_eq!(pos, Some(0));
    let (list, pos) = model_choices(&models, "b");
    assert_eq!(list, vec!["a", "b"]);
    assert_eq!(pos, Some(1));
    let (list, pos) = model_choices(&models, "");
    assert_eq!(list, vec!["a", "b"]);
    assert_eq!(pos, None);
    let pl = preset_model_choices(&models);
    assert_eq!(pl, vec!["Default", "a", "b"]);
    assert_eq!(preset_model_position(&pl, Some("b")), 2);
    assert_eq!(preset_model_position(&pl, Some("zzz")), 0);
    assert_eq!(preset_model_position(&pl, None), 0);
}

#[test]
fn model_discovery_status() {
    assert_eq!(models_status(&Ok(vec!["a".to_string(), "b".to_string()])), "2 models");
    assert_eq!(models_status(&Ok(vec![])), "No models — type one manually");
    assert_eq!(models_status(&Err("timeout".to_string())), "timeout");
}

#[test]
fn gpu_names_shorten() {
    assert_eq!(
        shorten_gpu_name("Advanced Micro Devices, Inc. [AMD/ATI] Navi 32 [Radeon RX 7800 XT]"),
        "AMD Radeon RX 7800 XT"
    );
    assert_eq!(shorten_gpu_name("NVIDIA Corporation GA106 [GeForce RTX 3060]"), "NVIDIA GeForce RTX 3060");
    assert_eq!(shorten_gpu_name("NVIDIA GeForce RTX 4090"), "NVIDIA GeForce RTX 4090");
    assert_eq!(shorten_gpu_name("Some Vendor Card [X]"), "Some Vendor Card [X]");
    assert_eq!(
        shorten_gpu_name("Intel Corporation Device [Iris Xe / UHD 750 / HD 630]"),
        "Intel Iris Xe / UHD 750"
    );
    assert_eq!(
        shorten_gpu_name("Intel Corporation Alder Lake-P GT2 [Iris Xe Graphics]"),
        "Intel Iris Xe Graphics"
    );
    assert_eq!(shorten_gpu_name("AMD/ATI Device [Radeon 780M]"), "AMD Radeon 780M");
    assert_eq!(
        shorten_gpu_name("Intel Device [Iris Xe / UHD 750 / HD 630]"),
        "Intel Iris Xe / UHD 750"
    );
    assert_eq!(shorten_gpu_name_public("Intel Corp [Intel Arc A770]"), "Intel Arc A770");
    assert_eq!(keep_two_names("a / b / c / d"), "a / b");
    assert_eq!(keep_two_names("a / b"), "a / b");
}

#[test]
fn gpu_brand_split() {
    assert_eq!(split_gpu_brand_model("AMD Radeon RX 7800 XT"), ("AMD".to_string(), "Radeon RX 7800 XT".to_string()));
    assert_eq!(split_gpu_brand_model("Matrox G200"), ("Matrox G200".to_string(), String::new()));
}

#[test]
fn lspci_and_sysfs_lines() {
    let line = "01:00.0 VGA compatible controller: NVIDIA Corporation GA106 [GeForce RTX 3060] (rev a1)";
    assert_eq!(
        lspci_line_name(line, None),
        Some("NVIDIA Corporation GA106 [GeForce RTX 3060] (rev a1)".to_string())
    );
    assert_eq!(lspci_line_name(line, Some("amd")), None);
    assert_eq!(lspci_line_name("00:14.0 USB controller: Intel", None), None);
    let lines = vec![
        "00:14.0 USB controller: Intel".to_string(),
        "03:00.0 Display controller: Advanced Micro Devices [AMD] Navi".to_string(),
    ];
    assert_eq!(first_gpu_name(&lines, Some("amd")), Some("Advanced Micro Devices [AMD] Navi".to_string()));
    assert!(is_drm_card("card0"));
    assert!(!is_drm_card("card0-DP-1"));
    assert!(!is_drm_card("renderD128"));
    assert!(uses_amdgpu("DRIVER=amdgpu\nPCI_ID=1002"));
    assert!(!uses_amdgpu("DRIVER=nvidia"));
}

#[test]
fn nvidia_smi_fields() {
    assert_eq!(
        parse_smi_output("NVIDIA GeForce RTX 3060, 535.154.05, 12288\n"),
        Some(("NVIDIA GeForce RTX 3060".to_string(), "535.154.05".to_string(), "12288".to_string()))
    );
    assert_eq!(parse_smi_output("garbage"), None);
}

#[test]
fn gpu_panel_labels() {
    let mut p = GpuStatusPanel::new();
    assert_eq!(p.brand, "Detecting…");
    p.set_gpu_info("NVIDIA Corporation GA106 [GeForce RTX 3060]", "Available");
    assert_eq!((p.brand.as_str(), p.model.as_str()), ("NVIDIA", "GeForce RTX 3060"));
    assert_eq!(p.status_class, "success");
    p.set_no_gpu();
    assert_eq!(p.status, "CPU only");
    assert_eq!(p.vram_text, "N/A");
    assert_eq!(status_class("Error"), "error");
    assert_eq!(status_class("Busy"), "dim-label");
}

#[test]
fn wizard_flow() {
    let mut w = WelcomeWizard::new();
    let step = w.next_clicked();
    assert_eq!(step.scroll_to, Some(1));
    assert!(step.start_download);
    assert_eq!(w.finish_clicked(true), None);
    let d = w.download_clicked(0, &catalog());
    assert_eq!(d, DownloadStep::Download("tiny".to_string()));
    w.download_finished(Err("offline"));
    w.download_finished(Ok(()));
    assert_eq!(w.downloaded_model_id(), Some("tiny".to_string()));
    assert_eq!(w.finish_clicked(false), None);
    assert!(!w.is_completed());
    assert_eq!(w.finish_clicked(true), Some("tiny".to_string()));
    assert!(w.is_completed());
}

#[test]
fn wizard_existing_model_skips_download() {
    let mut w = WelcomeWizard::new();
    assert_eq!(w.download_clicked(1, &catalog()), DownloadStep::AlreadyThere);
    assert_eq!(w.download_clicked(9, &catalog()), DownloadStep::Nothing);
    assert_eq!(w.downloaded_model_id(), Some("base".to_string()));
    assert_eq!(model_choice_label("Tiny", "31 MB", true), "Tiny (31 MB) — Quantized");
    assert_eq!(model_choice_label("Base", "142 MB", false), "Base (142 MB) — Full");
}

#[test]
fn model_row_states() {
    let mut r = ModelRow::new("Base", "142 MB", "Balanced");
    assert_eq!(r.state, ModelState::NotDownloaded);
    let look = r.set_state(ModelState::Downloading);
    assert_eq!(look.label, "Downloading…");
    assert!(!look.sensitive);
    assert_eq!(r.state, ModelState::Downloading);
}

#[test]
fn help_document_sections() {
    let page = HelpPage::new();
    let headings: Vec<&str> = page
        .blocks
        .iter()
        .filter_map(|b| if let HelpBlock::Heading(h) = b { Some(*h) } else { None })
        .collect();
    assert_eq!(headings.len(), 12);
    assert_eq!(headings[0], "Quick start");
    assert_eq!(headings[11], "Troubleshooting");
    assert_eq!(step_number(0), "1");
    assert_eq!(step_number(9), "10");
    assert_eq!(
        flow_items(3),
        vec![FlowItem::Pill(0), FlowItem::Arrow, FlowItem::Pill(1), FlowItem::Arrow, FlowItem::Pill(2)]
    );
    assert!(flow_items(0).is_empty());
    assert_eq!(table_grid_rows(0), (1, 2));
    assert_eq!(table_grid_rows(3), (7, 8));
    let rows = model_chart_rows();
    assert_eq!(rows.len(), 6);
    assert_eq!(rows[5].name, "Large v3 Turbo");
}

#[test]
fn llm_page_loads_saved_settings() {
    let empty = LlmPage::new();
    assert!(!empty.enabled && empty.presets.is_empty());
    assert_eq!(empty.load_from_config(), (4, 0, false));
    let mut s = settings();
    assert_eq!(s.load_from_config(), (0, 0, false));
    s.enabled = true;
    s.active_preset = 9;
    assert_eq!(s.load_from_config(), (0, 1, true));
    s.api_url = "   ".to_string();
    assert_eq!(s.load_from_config(), (4, 1, false));
    s.api_url = "http://localhost:11434/v1".to_string();
    assert_eq!(s.load_from_config().0, 1);
}

#[test]
fn download_progress_texts() {
    let mut p = ModelPage::new("whisper", &catalog(), false, false);
    assert_eq!(p.set_download_progress(42, "21 / 50 MB"), "42%");
    assert_eq!(p.status(), "21 / 50 MB");
    let row = ModelRow::new("Base", "142 MB", "Balanced");
    assert_eq!(row.set_progress(100), "100%");
    assert_eq!(row.set_progress(0), "0%");
    let w = WelcomeWizard::new();
    assert_eq!(w.set_download_progress(7), "Downloading… 7%");
}

#[test]
fn api_key_apply_stores_or_deletes() {
    assert_eq!(api_key_action(""), TokenAction::Delete);
    assert_eq!(api_key_action("sk-test"), TokenAction::Store("sk-test".to_string()));
}

#[test]
fn help_page_holds_every_block() {
    let page = HelpPage::new();
    assert_eq!(page.blocks.len(), 33);
    match &page.blocks[1] {
        HelpBlock::Steps(steps) => {
            assert_eq!(steps[1], "On the Transcription page press Record, speak, then press Stop.")
        }
        _ => panic!("the quick start steps follow the first heading"),
    }
}

#[test]
fn delete_preset_keeps_connection_settings() {
    let mut s = settings();
    s.enabled = true;
    s.model = "llama".to_string();
    assert_eq!(s.delete_preset(0), Some(0));
    assert!(s.enabled);
    assert_eq!(s.api_url, "http://localhost:1234/v1");
    assert_eq!(s.model, "llama");
    assert_eq!(s.selection_shortcut, "<Ctrl><Alt>i");
}

#[test]
fn gpu_vendor_from_lowercase_text() {
    assert_eq!(vendor_from_lowercase("intel corporation alder lake-p gt2 [iris xe graphics]"), Some("Intel"));
    assert_eq!(vendor_from_lowercase("advanced micro devices, inc. [amd/ati] navi 32"), Some("AMD"));
    assert_eq!(vendor_from_lowercase("ati technologies rage"), Some("AMD"));
    assert_eq!(vendor_from_lowercase("amdgpu device"), Some("AMD"));
    assert_eq!(vendor_from_lowercase("nvidia corporation ga106"), Some("NVIDIA"));
    assert_eq!(vendor_from_lowercase("matrox g200 corporation"), None);
}

#[test]
fn gpu_name_pieces() {
    assert_eq!(
        marketing_name("NVIDIA Corporation GA106 [GeForce RTX 3060]"),
        Some("GeForce RTX 3060".to_string())
    );
    assert_eq!(marketing_name("Intel Device [ a / b / c ]"), Some("a / b".to_string()));
    assert_eq!(marketing_name("no brackets"), None);
    assert_eq!(marketing_name("odd ] order ["), None);
    assert_eq!(with_manufacturer("Intel", "Arc A770", "arc a770", "intel"), "Intel Arc A770");
    assert_eq!(with_manufacturer("Intel", "Intel Arc A770", "intel arc a770", "intel"), "Intel Arc A770");
    let line = "00:02.0 VGA compatible controller: Intel Corporation Device";
    assert_eq!(
        lspci_line_name_lowered(line, &line.to_lowercase(), Some("intel")),
        Some("Intel Corporation Device".to_string())
    );
    assert_eq!(lspci_line_name_lowered(line, &line.to_lowercase(), Some("amd")), None);
}
