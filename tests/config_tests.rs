use game_companion::config::{
    parse_vk_code, Config, GameEntry, GraphicsApi, RawConfig, SafetyFilter, TranslationProvider,
};

fn assert_same(a: &Config, b: &Config) {
    assert_eq!(a.api.key, b.api.key);
    assert_eq!(a.api.model, b.api.model);
    assert_eq!(a.api.max_tokens, b.api.max_tokens);
    assert_eq!(a.api.system_prompt, b.api.system_prompt);
    assert_eq!(a.api.safety_filter, b.api.safety_filter);
    assert_eq!(a.overlay.graphics_api, b.overlay.graphics_api);
    assert_eq!(a.overlay.hotkey, b.overlay.hotkey);
    assert_eq!(a.overlay.width, b.overlay.width);
    assert_eq!(a.overlay.height, b.overlay.height);
    assert_eq!(a.overlay.opacity_percent, b.overlay.opacity_percent);
    assert_eq!(a.overlay.font_size, b.overlay.font_size);
    assert_eq!(a.overlay.translate_hotkey, b.overlay.translate_hotkey);
    assert_eq!(a.capture.enabled, b.capture.enabled);
    assert_eq!(a.capture.max_width, b.capture.max_width);
    assert_eq!(a.capture.quality, b.capture.quality);
    assert_eq!(a.logging.enabled, b.logging.enabled);
    assert_eq!(a.logging.directory, b.logging.directory);
    assert_eq!(a.translation.enabled, b.translation.enabled);
    assert_eq!(a.translation.target_language, b.translation.target_language);
    assert_eq!(a.translation.provider, b.translation.provider);
    assert_eq!(a.translation.local.endpoint, b.translation.local.endpoint);
    assert_eq!(a.translation.local.model, b.translation.local.model);
    assert_eq!(a.games.len(), b.games.len());
    for (x, y) in a.games.iter().zip(b.games.iter()) {
        assert_eq!(x.name, y.name);
        assert_eq!(x.process, y.process);
    }
}

#[test]
fn defaults_hold_documented_values() {
    let c = Config::default();
    assert_eq!(c.api.key, "");
    assert_eq!(c.api.model, "gemini-2.5-flash");
    assert_eq!(c.api.max_tokens, 1024);
    assert!(c.api.system_prompt.starts_with("You are a helpful game companion."));
    assert_eq!(c.api.safety_filter, SafetyFilter::Off);
    assert_eq!(c.overlay.graphics_api, None);
    assert_eq!(c.overlay.hotkey, "F9");
    assert_eq!(c.overlay.translate_hotkey, "F10");
    assert_eq!(c.overlay.width, 500);
    assert_eq!(c.overlay.height, 400);
    assert_eq!(c.overlay.opacity_percent, 85);
    assert_eq!(c.overlay.font_size, 16);
    assert!(c.capture.enabled);
    assert_eq!(c.capture.max_width, 1920);
    assert_eq!(c.capture.quality, 85);
    assert!(c.logging.enabled);
    assert_eq!(c.logging.directory, None);
    assert!(c.translation.enabled);
    assert_eq!(c.translation.target_language, "English");
    assert_eq!(c.translation.provider, TranslationProvider::Gemini);
    assert_eq!(c.translation.local.endpoint, "http://localhost:11434/v1/chat/completions");
    assert_eq!(c.translation.local.model, "minicpm-v");
    assert!(c.games.is_empty());
}

#[test]
fn parse_failure_equals_empty_file() {
    let failed = Config::load(None);
    let empty = Config::load(Some(RawConfig::empty()));
    assert_same(&failed, &empty);
}

#[test]
fn defaulting_is_idempotent() {
    let first = Config::from_raw(RawConfig::empty());
    let second = Config::from_raw(first.to_raw());
    assert_same(&first, &second);
}

#[test]
fn present_fields_override_defaults() {
    let mut raw = RawConfig::empty();
    raw.api.key = Some("SECRET-REDACTED".to_string());
    raw.api.max_tokens = Some(2048);
    raw.api.safety_filter = Some(SafetyFilter::BlockLow);
    raw.overlay.graphics_api = Some(GraphicsApi::Dx11);
    raw.capture.max_width = Some(1280);
    raw.logging.directory = Some("D:\\logs".to_string());
    raw.translation.provider = Some(TranslationProvider::Local);
    raw.games = Some(vec![GameEntry { name: Some("Elden Ring".to_string()), process: "eldenring.exe".to_string() }]);
    let c = Config::from_raw(raw);
    assert_eq!(c.api.key, "SECRET-REDACTED");
    assert_eq!(c.api.max_tokens, 2048);
    assert_eq!(c.api.model, "gemini-2.5-flash");
    assert_eq!(c.api.safety_filter, SafetyFilter::BlockLow);
    assert_eq!(c.overlay.graphics_api, Some(GraphicsApi::Dx11));
    assert_eq!(c.overlay.hotkey, "F9");
    assert_eq!(c.capture.max_width, 1280);
    assert_eq!(c.logging.directory.as_deref(), Some("D:\\logs"));
    assert_eq!(c.translation.provider, TranslationProvider::Local);
    assert_eq!(c.games.len(), 1);
    assert_eq!(c.games[0].display_name(), "Elden Ring");
}

#[test]
fn safety_filter_thresholds() {
    assert_eq!(SafetyFilter::Off.as_api_str(), "BLOCK_NONE");
    assert_eq!(SafetyFilter::BlockHigh.as_api_str(), "BLOCK_ONLY_HIGH");
    assert_eq!(SafetyFilter::BlockMedium.as_api_str(), "BLOCK_MEDIUM_AND_ABOVE");
    assert_eq!(SafetyFilter::BlockLow.as_api_str(), "BLOCK_LOW_AND_ABOVE");
}

#[test]
fn graphics_api_labels() {
    assert_eq!(GraphicsApi::Dx12.label(), "DX12");
    assert_eq!(GraphicsApi::Dx11.label(), "DX11");
    assert_eq!(GraphicsApi::Dx9.label(), "DX9");
    assert_eq!(GraphicsApi::Opengl.label(), "OpenGL");
}

#[test]
fn function_keys_map_to_virtual_keys() {
    assert_eq!(parse_vk_code("F1"), Some(0x70));
    assert_eq!(parse_vk_code("F9"), Some(0x78));
    assert_eq!(parse_vk_code("F10"), Some(0x79));
    assert_eq!(parse_vk_code("F12"), Some(0x7B));
}

#[test]
fn hotkey_names_ignore_case() {
    assert_eq!(parse_vk_code("f9"), Some(0x78));
    assert_eq!(parse_vk_code("f11"), Some(0x7A));
}

#[test]
fn unknown_hotkeys_bind_nothing() {
    assert_eq!(parse_vk_code("F13"), None);
    assert_eq!(parse_vk_code(""), None);
    assert_eq!(parse_vk_code("Ctrl"), None);
}

#[test]
fn game_entry_display_name_falls_back_to_process() {
    let g = GameEntry { name: None, process: "Game.exe".to_string() };
    assert_eq!(g.display_name(), "Game.exe");
}
