//! View models and decision logic of the Speech to Text desktop client.

pub mod text;
pub mod result_state;
pub mod version;
pub mod history;
pub mod system;
pub mod debounce;
pub mod navigation;
pub mod languages;
pub mod controls;
pub mod status_bar;
pub mod transcript;
pub mod mini_panel;
pub mod header;
pub mod model_page;
pub mod llm_settings;
pub mod gpu;
pub mod theme;
pub mod dictionary;
pub mod api_page;
pub mod dictation;
pub mod devices;
pub mod wizard;
pub mod main_window;
pub mod help;
