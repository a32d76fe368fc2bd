use vstd::prelude::*;

use crate::text::{text_eq, to_upper, upper_of};

verus! {

/// Graphics backend whose presentation call is intercepted.
#[derive(Clone, Copy, PartialEq, Eq, Debug, Structural)]
pub enum GraphicsApi {
    Dx12,
    Dx11,
    Dx9,
    Opengl,
}

pub open spec fn graphics_api_label(api: GraphicsApi) -> Seq<char> {
    match api {
        GraphicsApi::Dx12 => "DX12"@,
        GraphicsApi::Dx11 => "DX11"@,
        GraphicsApi::Dx9 => "DX9"@,
        GraphicsApi::Opengl => "OpenGL"@,
    }
}

impl GraphicsApi {
    /// Human-readable backend name used in diagnostics.
    pub fn label(self) -> (r: &'static str)
        ensures
            r@ == graphics_api_label(self),
    {
        match self {
            GraphicsApi::Dx12 => "DX12",
            GraphicsApi::Dx11 => "DX11",
            GraphicsApi::Dx9 => "DX9",
            GraphicsApi::Opengl => "OpenGL",
        }
    }
}

/// Content-safety threshold requested from the remote service.
#[derive(Clone, Copy, PartialEq, Eq, Debug, Structural)]
pub enum SafetyFilter {
    /// Block nothing.
    Off,
    /// Block only high-probability harmful content.
    BlockHigh,
    /// Block medium probability and above.
    BlockMedium,
    /// Block low probability and above: the most restrictive.
    BlockLow,
}

pub open spec fn safety_threshold(f: SafetyFilter) -> Seq<char> {
    match f {
        SafetyFilter::Off => "BLOCK_NONE"@,
        SafetyFilter::BlockHigh => "BLOCK_ONLY_HIGH"@,
        SafetyFilter::BlockMedium => "BLOCK_MEDIUM_AND_ABOVE"@,
        SafetyFilter::BlockLow => "BLOCK_LOW_AND_ABOVE"@,
    }
}

impl SafetyFilter {
    /// The threshold name the remote service expects.
    pub fn as_api_str(self) -> (r: &'static str)
        ensures
            r@ == safety_threshold(self),
    {
        match self {
            SafetyFilter::Off => "BLOCK_NONE",
            SafetyFilter::BlockHigh => "BLOCK_ONLY_HIGH",
            SafetyFilter::BlockMedium => "BLOCK_MEDIUM_AND_ABOVE",
            SafetyFilter::BlockLow => "BLOCK_LOW_AND_ABOVE",
        }
    }
}

/// Where translation requests go.
#[derive(Clone, Copy, PartialEq, Eq, Debug, Structural)]
pub enum TranslationProvider {
    Gemini,
    Local,
}

/// One watched game: its executable file name and an optional display name.
#[derive(Clone)]
pub struct GameEntry {
    pub name: Option<String>,
    pub process: String,
}

pub open spec fn display_name_of(g: GameEntry) -> Seq<char> {
    match g.name {
        Some(n) => n@,
        None => g.process@,
    }
}

impl GameEntry {
    /// The configured display name, or the process name when none is set.
    pub fn display_name(&self) -> (r: &str)
        ensures
            r@ == display_name_of(*self),
    {
        match &self.name {
            Some(n) => n.as_str(),
            None => self.process.as_str(),
        }
    }
}

/// Remote service settings.
pub struct ApiConfig {
    pub key: String,
    pub model: String,
    pub max_tokens: u32,
    pub system_prompt: String,
    pub safety_filter: SafetyFilter,
}

/// Overlay settings. Panel sizes are whole pixels, opacity is a percentage.
pub struct OverlayConfig {
    /// Forced backend; `None` means detect from the loaded modules.
    pub graphics_api: Option<GraphicsApi>,
    pub hotkey: String,
    pub width: u32,
    pub height: u32,
    pub opacity_percent: u8,
    pub font_size: u32,
    pub translate_hotkey: String,
}

/// Screenshot settings.
pub struct CaptureConfig {
    pub enabled: bool,
    pub max_width: u32,
    pub quality: u8,
}

/// Session log settings.
pub struct LoggingConfig {
    pub enabled: bool,
    /// Log directory; `None` means `logs` beside the library image.
    pub directory: Option<String>,
}

/// Local translation model endpoint.
pub struct LocalModelConfig {
    pub endpoint: String,
    pub model: String,
}

/// Translation settings.
pub struct TranslationConfig {
    pub enabled: bool,
    pub target_language: String,
    pub provider: TranslationProvider,
    pub local: LocalModelConfig,
}

/// The whole configuration snapshot.
pub struct Config {
    pub api: ApiConfig,
    pub overlay: OverlayConfig,
    pub capture: CaptureConfig,
    pub logging: LoggingConfig,
    pub translation: TranslationConfig,
    pub games: Vec<GameEntry>,
}

/// The `[api]` table as written in the file: each field present or absent.
pub struct RawApiConfig {
    pub key: Option<String>,
    pub model: Option<String>,
    pub max_tokens: Option<u32>,
    pub system_prompt: Option<String>,
    pub safety_filter: Option<SafetyFilter>,
}

/// The `[overlay]` table as written in the file.
pub struct RawOverlayConfig {
    pub graphics_api: Option<GraphicsApi>,
    pub hotkey: Option<String>,
    pub width: Option<u32>,
    pub height: Option<u32>,
    pub opacity_percent: Option<u8>,
    pub font_size: Option<u32>,
    pub translate_hotkey: Option<String>,
}

/// The `[capture]` table as written in the file.
pub struct RawCaptureConfig {
    pub enabled: Option<bool>,
    pub max_width: Option<u32>,
    pub quality: Option<u8>,
}

/// The `[logging]` table as written in the file.
pub struct RawLoggingConfig {
    pub enabled: Option<bool>,
    pub directory: Option<String>,
}

/// The `[translation.local]` table as written in the file.
pub struct RawLocalModelConfig {
    pub endpoint: Option<String>,
    pub model: Option<String>,
}

/// The `[translation]` table as written in the file.
pub struct RawTranslationConfig {
    pub enabled: Option<bool>,
    pub target_language: Option<String>,
    pub provider: Option<TranslationProvider>,
    pub local: RawLocalModelConfig,
}

/// A parsed configuration document before defaults are applied. An absent
/// table is a table with every field absent.
pub struct RawConfig {
    pub api: RawApiConfig,
    pub overlay: RawOverlayConfig,
    pub capture: RawCaptureConfig,
    pub logging: RawLoggingConfig,
    pub translation: RawTranslationConfig,
    pub games: Option<Vec<GameEntry>>,
}

// ---- default values ----

pub open spec fn default_model_text() -> Seq<char> {
    "gemini-2.5-flash"@
}

pub open spec fn default_system_prompt_text() -> Seq<char> {
    "You are a helpful game companion. Be concise and direct. When you see a screenshot, describe what you observe and provide actionable advice."@
}

pub open spec fn default_local_endpoint_text() -> Seq<char> {
    "http://localhost:11434/v1/chat/completions"@
}

pub open spec fn default_local_model_text() -> Seq<char> {
    "minicpm-v"@
}

pub fn default_safety_filter() -> (r: SafetyFilter)
    ensures
        r == SafetyFilter::Off,
{
    SafetyFilter::Off
}

pub fn default_translation_provider() -> (r: TranslationProvider)
    ensures
        r == TranslationProvider::Gemini,
{
    TranslationProvider::Gemini
}

pub fn default_local_endpoint() -> (r: String)
    ensures
        r@ == default_local_endpoint_text(),
{
    String::from_str("http://localhost:11434/v1/chat/completions")
}

pub fn default_local_model() -> (r: String)
    ensures
        r@ == default_local_model_text(),
{
    String::from_str("minicpm-v")
}

pub fn default_translation_enabled() -> (r: bool)
    ensures
        r,
{
    true
}

pub fn default_target_language() -> (r: String)
    ensures
        r@ == "English"@,
{
    String::from_str("English")
}

pub fn default_logging_enabled() -> (r: bool)
    ensures
        r,
{
    true
}

pub fn default_model() -> (r: String)
    ensures
        r@ == default_model_text(),
{
    String::from_str("gemini-2.5-flash")
}

pub fn default_max_tokens() -> (r: u32)
    ensures
        r == 1024,
{
    1024
}

pub fn default_system_prompt() -> (r: String)
    ensures
        r@ == default_system_prompt_text(),
{
    String::from_str(
        "You are a helpful game companion. Be concise and direct. When you see a screenshot, describe what you observe and provide actionable advice.",
    )
}

pub fn default_hotkey() -> (r: String)
    ensures
        r@ == "F9"@,
{
    String::from_str("F9")
}

pub fn default_width() -> (r: u32)
    ensures
        r == 500,
{
    500
}

pub fn default_height() -> (r: u32)
    ensures
        r == 400,
{
    400
}

pub fn default_opacity() -> (r: u8)
    ensures
        r == 85,
{
    85
}

pub fn default_font_size() -> (r: u32)
    ensures
        r == 16,
{
    16
}

pub fn default_translate_hotkey() -> (r: String)
    ensures
        r@ == "F10"@,
{
    String::from_str("F10")
}

pub fn default_capture_enabled() -> (r: bool)
    ensures
        r,
{
    true
}

pub fn default_max_width() -> (r: u32)
    ensures
        r == 1920,
{
    1920
}

pub fn default_quality() -> (r: u8)
    ensures
        r == 85,
{
    85
}

// ---- resolution of a parsed document against the defaults ----

pub open spec fn text_or(v: Option<String>, d: Seq<char>) -> Seq<char> {
    match v {
        Some(s) => s@,
        None => d,
    }
}

pub open spec fn value_or<T>(v: Option<T>, d: T) -> T {
    match v {
        Some(x) => x,
        None => d,
    }
}

pub open spec fn opt_text(v: Option<String>) -> Option<Seq<char>> {
    match v {
        Some(s) => Some(s@),
        None => None,
    }
}

pub open spec fn games_view(games: Seq<GameEntry>) -> Seq<(Option<Seq<char>>, Seq<char>)> {
    games.map_values(|g: GameEntry| (opt_text(g.name), g.process@))
}

/// `c` is what `raw` gives once every absent field takes its default.
pub open spec fn resolves(raw: RawConfig, c: Config) -> bool {
    &&& c.api.key@ == text_or(raw.api.key, Seq::empty())
    &&& c.api.model@ == text_or(raw.api.model, default_model_text())
    &&& c.api.max_tokens == value_or(raw.api.max_tokens, 1024u32)
    &&& c.api.system_prompt@ == text_or(raw.api.system_prompt, default_system_prompt_text())
    &&& c.api.safety_filter == value_or(raw.api.safety_filter, SafetyFilter::Off)
    &&& c.overlay.graphics_api == raw.overlay.graphics_api
    &&& c.overlay.hotkey@ == text_or(raw.overlay.hotkey, "F9"@)
    &&& c.overlay.width == value_or(raw.overlay.width, 500u32)
    &&& c.overlay.height == value_or(raw.overlay.height, 400u32)
    &&& c.overlay.opacity_percent == value_or(raw.overlay.opacity_percent, 85u8)
    &&& c.overlay.font_size == value_or(raw.overlay.font_size, 16u32)
    &&& c.overlay.translate_hotkey@ == text_or(raw.overlay.translate_hotkey, "F10"@)
    &&& c.capture.enabled == value_or(raw.capture.enabled, true)
    &&& c.capture.max_width == value_or(raw.capture.max_width, 1920u32)
    &&& c.capture.quality == value_or(raw.capture.quality, 85u8)
    &&& c.logging.enabled == value_or(raw.logging.enabled, true)
    &&& opt_text(c.logging.directory) == opt_text(raw.logging.directory)
    &&& c.translation.enabled == value_or(raw.translation.enabled, true)
    &&& c.translation.target_language@ == text_or(raw.translation.target_language, "English"@)
    &&& c.translation.provider == value_or(raw.translation.provider, TranslationProvider::Gemini)
    &&& c.translation.local.endpoint@ == text_or(raw.translation.local.endpoint, default_local_endpoint_text())
    &&& c.translation.local.model@ == text_or(raw.translation.local.model, default_local_model_text())
    &&& games_view(c.games@) == match raw.games {
        Some(g) => games_view(g@),
        None => Seq::empty(),
    }
}

/// Every field of `c` holds its default value.
pub open spec fn is_default_config(c: Config) -> bool {
    &&& c.api.key@ == Seq::<char>::empty()
    &&& c.api.model@ == default_model_text()
    &&& c.api.max_tokens == 1024
    &&& c.api.system_prompt@ == default_system_prompt_text()
    &&& c.api.safety_filter == SafetyFilter::Off
    &&& c.overlay.graphics_api.is_none()
    &&& c.overlay.hotkey@ == "F9"@
    &&& c.overlay.width == 500
    &&& c.overlay.height == 400
    &&& c.overlay.opacity_percent == 85
    &&& c.overlay.font_size == 16
    &&& c.overlay.translate_hotkey@ == "F10"@
    &&& c.capture.enabled
    &&& c.capture.max_width == 1920
    &&& c.capture.quality == 85
    &&& c.logging.enabled
    &&& c.logging.directory.is_none()
    &&& c.translation.enabled
    &&& c.translation.target_language@ == "English"@
    &&& c.translation.provider == TranslationProvider::Gemini
    &&& c.translation.local.endpoint@ == default_local_endpoint_text()
    &&& c.translation.local.model@ == default_local_model_text()
    &&& c.games@.len() == 0
}

/// The two snapshots agree on every field.
pub open spec fn same_config(a: Config, b: Config) -> bool {
    &&& a.api.key@ == b.api.key@
    &&& a.api.model@ == b.api.model@
    &&& a.api.max_tokens == b.api.max_tokens
    &&& a.api.system_prompt@ == b.api.system_prompt@
    &&& a.api.safety_filter == b.api.safety_filter
    &&& a.overlay.graphics_api == b.overlay.graphics_api
    &&& a.overlay.hotkey@ == b.overlay.hotkey@
    &&& a.overlay.width == b.overlay.width
    &&& a.overlay.height == b.overlay.height
    &&& a.overlay.opacity_percent == b.overlay.opacity_percent
    &&& a.overlay.font_size == b.overlay.font_size
    &&& a.overlay.translate_hotkey@ == b.overlay.translate_hotkey@
    &&& a.capture.enabled == b.capture.enabled
    &&& a.capture.max_width == b.capture.max_width
    &&& a.capture.quality == b.capture.quality
    &&& a.logging.enabled == b.logging.enabled
    &&& opt_text(a.logging.directory) == opt_text(b.logging.directory)
    &&& a.translation.enabled == b.translation.enabled
    &&& a.translation.target_language@ == b.translation.target_language@
    &&& a.translation.provider == b.translation.provider
    &&& a.translation.local.endpoint@ == b.translation.local.endpoint@
    &&& a.translation.local.model@ == b.translation.local.model@
    &&& games_view(a.games@) == games_view(b.games@)
}

/// Every field of the document is absent, as in an empty file.
pub open spec fn is_empty_document(raw: RawConfig) -> bool {
    &&& raw.api.key.is_none()
    &&& raw.api.model.is_none()
    &&& raw.api.max_tokens.is_none()
    &&& raw.api.system_prompt.is_none()
    &&& raw.api.safety_filter.is_none()
    &&& raw.overlay.graphics_api.is_none()
    &&& raw.overlay.hotkey.is_none()
    &&& raw.overlay.width.is_none()
    &&& raw.overlay.height.is_none()
    &&& raw.overlay.opacity_percent.is_none()
    &&& raw.overlay.font_size.is_none()
    &&& raw.overlay.translate_hotkey.is_none()
    &&& raw.capture.enabled.is_none()
    &&& raw.capture.max_width.is_none()
    &&& raw.capture.quality.is_none()
    &&& raw.logging.enabled.is_none()
    &&& raw.logging.directory.is_none()
    &&& raw.translation.enabled.is_none()
    &&& raw.translation.target_language.is_none()
    &&& raw.translation.provider.is_none()
    &&& raw.translation.local.endpoint.is_none()
    &&& raw.translation.local.model.is_none()
    &&& raw.games.is_none()
}

/// `raw` writes every field of `c` out explicitly.
pub open spec fn writes_out(c: Config, raw: RawConfig) -> bool {
    &&& opt_text(raw.api.key) == Some(c.api.key@)
    &&& opt_text(raw.api.model) == Some(c.api.model@)
    &&& raw.api.max_tokens == Some(c.api.max_tokens)
    &&& opt_text(raw.api.system_prompt) == Some(c.api.system_prompt@)
    &&& raw.api.safety_filter == Some(c.api.safety_filter)
    &&& raw.overlay.graphics_api == c.overlay.graphics_api
    &&& opt_text(raw.overlay.hotkey) == Some(c.overlay.hotkey@)
    &&& raw.overlay.width == Some(c.overlay.width)
    &&& raw.overlay.height == Some(c.overlay.height)
    &&& raw.overlay.opacity_percent == Some(c.overlay.opacity_percent)
    &&& raw.overlay.font_size == Some(c.overlay.font_size)
    &&& opt_text(raw.overlay.translate_hotkey) == Some(c.overlay.translate_hotkey@)
    &&& raw.capture.enabled == Some(c.capture.enabled)
    &&& raw.capture.max_width == Some(c.capture.max_width)
    &&& raw.capture.quality == Some(c.capture.quality)
    &&& raw.logging.enabled == Some(c.logging.enabled)
    &&& opt_text(raw.logging.directory) == opt_text(c.logging.directory)
    &&& raw.translation.enabled == Some(c.translation.enabled)
    &&& opt_text(raw.translation.target_language) == Some(c.translation.target_language@)
    &&& raw.translation.provider == Some(c.translation.provider)
    &&& opt_text(raw.translation.local.endpoint) == Some(c.translation.local.endpoint@)
    &&& opt_text(raw.translation.local.model) == Some(c.translation.local.model@)
    &&& match raw.games {
        Some(g) => games_view(g@) == games_view(c.games@),
        None => false,
    }
}

/// What loading gives: the resolved document, or the defaults when the file
/// could not be read or parsed.
pub open spec fn loaded(parsed: Option<RawConfig>, c: Config) -> bool {
    match parsed {
        Some(raw) => resolves(raw, c),
        None => is_default_config(c),
    }
}

fn text_or_default(v: Option<String>, d: String) -> (r: String)
    ensures
        r@ == text_or(v, d@),
{
    match v {
        Some(s) => s,
        None => d,
    }
}

fn clone_opt_text(v: &Option<String>) -> (r: Option<String>)
    ensures
        opt_text(r) == opt_text(*v),
{
    match v {
        Some(s) => Some(s.clone()),
        None => None,
    }
}

fn clone_games(games: &Vec<GameEntry>) -> (r: Vec<GameEntry>)
    ensures
        games_view(r@) == games_view(games@),
{
    let mut r: Vec<GameEntry> = Vec::new();
    let mut i: usize = 0;
    while i < games.len()
        invariant
            i <= games@.len(),
            r@.len() == i,
            forall|j: int|
                0 <= j < i ==> opt_text(#[trigger] r@[j].name) == opt_text(games@[j].name)
                    && r@[j].process@ == games@[j].process@,
        decreases games@.len() - i,
    {
        let g = &games[i];
        let e = GameEntry { name: clone_opt_text(&g.name), process: g.process.clone() };
        r.push(e);
        i = i + 1;
    }
    assert(games_view(r@) =~= games_view(games@));
    r
}

impl LocalModelConfig {
    pub fn new() -> (r: LocalModelConfig)
        ensures
            r.endpoint@ == default_local_endpoint_text(),
            r.model@ == default_local_model_text(),
    {
        LocalModelConfig { endpoint: default_local_endpoint(), model: default_local_model() }
    }
}

impl Default for LocalModelConfig {
    fn default() -> (r: LocalModelConfig)
        ensures
            r.endpoint@ == default_local_endpoint_text(),
            r.model@ == default_local_model_text(),
    {
        LocalModelConfig::new()
    }
}

impl Default for TranslationConfig {
    fn default() -> (r: TranslationConfig)
        ensures
            r.enabled,
            r.target_language@ == "English"@,
            r.provider == TranslationProvider::Gemini,
            r.local.endpoint@ == default_local_endpoint_text(),
            r.local.model@ == default_local_model_text(),
    {
        TranslationConfig {
            enabled: default_translation_enabled(),
            target_language: default_target_language(),
            provider: default_translation_provider(),
            local: LocalModelConfig::new(),
        }
    }
}

impl Default for ApiConfig {
    fn default() -> (r: ApiConfig)
        ensures
            r.key@ == Seq::<char>::empty(),
            r.model@ == default_model_text(),
            r.max_tokens == 1024,
            r.system_prompt@ == default_system_prompt_text(),
            r.safety_filter == SafetyFilter::Off,
    {
        ApiConfig {
            key: String::new(),
            model: default_model(),
            max_tokens: default_max_tokens(),
            system_prompt: default_system_prompt(),
            safety_filter: default_safety_filter(),
        }
    }
}

impl Default for OverlayConfig {
    fn default() -> (r: OverlayConfig)
        ensures
            r.graphics_api.is_none(),
            r.hotkey@ == "F9"@,
            r.width == 500,
            r.height == 400,
            r.opacity_percent == 85,
            r.font_size == 16,
            r.translate_hotkey@ == "F10"@,
    {
        OverlayConfig {
            graphics_api: None,
            hotkey: default_hotkey(),
            width: default_width(),
            height: default_height(),
            opacity_percent: default_opacity(),
            font_size: default_font_size(),
            translate_hotkey: default_translate_hotkey(),
        }
    }
}

impl Default for CaptureConfig {
    fn default() -> (r: CaptureConfig)
        ensures
            r.enabled,
            r.max_width == 1920,
            r.quality == 85,
    {
        CaptureConfig {
            enabled: default_capture_enabled(),
            max_width: default_max_width(),
            quality: default_quality(),
        }
    }
}

impl Default for LoggingConfig {
    fn default() -> (r: LoggingConfig)
        ensures
            r.enabled,
            r.directory.is_none(),
    {
        LoggingConfig { enabled: default_logging_enabled(), directory: None }
    }
}

impl Default for Config {
    fn default() -> (r: Config)
        ensures
            is_default_config(r),
    {
        Config {
            api: ApiConfig::default(),
            overlay: OverlayConfig::default(),
            capture: CaptureConfig::default(),
            logging: LoggingConfig::default(),
            translation: TranslationConfig::default(),
            games: Vec::new(),
        }
    }
}

impl Config {
    /// Applies the default of every field that the document leaves out.
    pub fn from_raw(raw: RawConfig) -> (r: Config)
        ensures
            resolves(raw, r),
    {
        let ghost raw0 = raw;
        let api = ApiConfig {
            key: text_or_default(raw.api.key, String::new()),
            model: text_or_default(raw.api.model, default_model()),
            max_tokens: match raw.api.max_tokens {
                Some(v) => v,
                None => default_max_tokens(),
            },
            system_prompt: text_or_default(raw.api.system_prompt, default_system_prompt()),
            safety_filter: match raw.api.safety_filter {
                Some(v) => v,
                None => default_safety_filter(),
            },
        };
        let overlay = OverlayConfig {
            graphics_api: raw.overlay.graphics_api,
            hotkey: text_or_default(raw.overlay.hotkey, default_hotkey()),
            width: match raw.overlay.width {
                Some(v) => v,
                None => default_width(),
            },
            height: match raw.overlay.height {
                Some(v) => v,
                None => default_height(),
            },
            opacity_percent: match raw.overlay.opacity_percent {
                Some(v) => v,
                None => default_opacity(),
            },
            font_size: match raw.overlay.font_size {
                Some(v) => v,
                None => default_font_size(),
            },
            translate_hotkey: text_or_default(
                raw.overlay.translate_hotkey,
                default_translate_hotkey(),
            ),
        };
        let capture = CaptureConfig {
            enabled: match raw.capture.enabled {
                Some(v) => v,
                None => default_capture_enabled(),
            },
            max_width: match raw.capture.max_width {
                Some(v) => v,
                None => default_max_width(),
            },
            quality: match raw.capture.quality {
                Some(v) => v,
                None => default_quality(),
            },
        };
        let logging = LoggingConfig {
            enabled: match raw.logging.enabled {
                Some(v) => v,
                None => default_logging_enabled(),
            },
            directory: raw.logging.directory,
        };
        let translation = TranslationConfig {
            enabled: match raw.translation.enabled {
                Some(v) => v,
                None => default_translation_enabled(),
            },
            target_language: text_or_default(
                raw.translation.target_language,
                default_target_language(),
            ),
            provider: match raw.translation.provider {
                Some(v) => v,
                None => default_translation_provider(),
            },
            local: LocalModelConfig {
                endpoint: text_or_default(raw.translation.local.endpoint, default_local_endpoint()),
                model: text_or_default(raw.translation.local.model, default_local_model()),
            },
        };
        let games = match raw.games {
            Some(g) => g,
            None => Vec::new(),
        };
        proof {
            if raw0.games.is_none() {
                assert(games_view(games@) =~= Seq::empty());
            }
        }
        Config { api, overlay, capture, logging, translation, games }
    }

    /// Writes every field out explicitly, as a document that sets them all.
    pub fn to_raw(&self) -> (r: RawConfig)
        ensures
            writes_out(*self, r),
    {
        RawConfig {
            api: RawApiConfig {
                key: Some(self.api.key.clone()),
                model: Some(self.api.model.clone()),
                max_tokens: Some(self.api.max_tokens),
                system_prompt: Some(self.api.system_prompt.clone()),
                safety_filter: Some(self.api.safety_filter),
            },
            overlay: RawOverlayConfig {
                graphics_api: self.overlay.graphics_api,
                hotkey: Some(self.overlay.hotkey.clone()),
                width: Some(self.overlay.width),
                height: Some(self.overlay.height),
                opacity_percent: Some(self.overlay.opacity_percent),
                font_size: Some(self.overlay.font_size),
                translate_hotkey: Some(self.overlay.translate_hotkey.clone()),
            },
            capture: RawCaptureConfig {
                enabled: Some(self.capture.enabled),
                max_width: Some(self.capture.max_width),
                quality: Some(self.capture.quality),
            },
            logging: RawLoggingConfig {
                enabled: Some(self.logging.enabled),
                directory: clone_opt_text(&self.logging.directory),
            },
            translation: RawTranslationConfig {
                enabled: Some(self.translation.enabled),
                target_language: Some(self.translation.target_language.clone()),
                provider: Some(self.translation.provider),
                local: RawLocalModelConfig {
                    endpoint: Some(self.translation.local.endpoint.clone()),
                    model: Some(self.translation.local.model.clone()),
                },
            },
            games: Some(clone_games(&self.games)),
        }
    }

    /// The snapshot for a document that was parsed (`Some`) or could not be
    /// read or parsed (`None`): a failure gives the defaults.
    pub fn load(parsed: Option<RawConfig>) -> (r: Config)
        ensures
            loaded(parsed, r),
    {
        match parsed {
            Some(raw) => Config::from_raw(raw),
            None => Config::default(),
        }
    }
}

impl RawConfig {
    /// The document of an empty file.
    pub fn empty() -> (r: RawConfig)
        ensures
            is_empty_document(r),
    {
        RawConfig {
            api: RawApiConfig {
                key: None,
                model: None,
                max_tokens: None,
                system_prompt: None,
                safety_filter: None,
            },
            overlay: RawOverlayConfig {
                graphics_api: None,
                hotkey: None,
                width: None,
                height: None,
                opacity_percent: None,
                font_size: None,
                translate_hotkey: None,
            },
            capture: RawCaptureConfig { enabled: None, max_width: None, quality: None },
            logging: RawLoggingConfig { enabled: None, directory: None },
            translation: RawTranslationConfig {
                enabled: None,
                target_language: None,
                provider: None,
                local: RawLocalModelConfig { endpoint: None, model: None },
            },
            games: None,
        }
    }
}

/// A document that cannot be read or parsed gives the same snapshot as an
/// empty file.
pub proof fn lemma_parse_failure_is_empty_file(empty: RawConfig, on_failure: Config, on_empty: Config)
    requires
        is_empty_document(empty),
        loaded(None, on_failure),
        loaded(Some(empty), on_empty),
    ensures
        same_config(on_failure, on_empty),
{
    assert(games_view(on_empty.games@) =~= games_view(on_failure.games@));
}

/// Defaulting is idempotent: resolving a document, writing the snapshot out
/// in full and resolving that again gives the same snapshot.
pub proof fn lemma_defaults_round_trip(raw: RawConfig, first: Config, written: RawConfig, second: Config)
    requires
        resolves(raw, first),
        writes_out(first, written),
        resolves(written, second),
    ensures
        same_config(first, second),
{
}

pub open spec fn vk_code_of(name: Seq<char>) -> Option<i32> {
    if name == "F1"@ {
        Some(0x70)
    } else if name == "F2"@ {
        Some(0x71)
    } else if name == "F3"@ {
        Some(0x72)
    } else if name == "F4"@ {
        Some(0x73)
    } else if name == "F5"@ {
        Some(0x74)
    } else if name == "F6"@ {
        Some(0x75)
    } else if name == "F7"@ {
        Some(0x76)
    } else if name == "F8"@ {
        Some(0x77)
    } else if name == "F9"@ {
        Some(0x78)
    } else if name == "F10"@ {
        Some(0x79)
    } else if name == "F11"@ {
        Some(0x7A)
    } else if name == "F12"@ {
        Some(0x7B)
    } else {
        None
    }
}

/// Virtual-key code of a function-key name (`F1` to `F12`, any case);
/// `None` for any other name.
pub fn parse_vk_code(hotkey: &str) -> (r: Option<i32>)
    ensures
        r == vk_code_of(upper_of(hotkey@)),
{
    let up = to_upper(hotkey);
    let u = up.as_str();
    if text_eq(u, "F1") {
        Some(0x70)
    } else if text_eq(u, "F2") {
        Some(0x71)
    } else if text_eq(u, "F3") {
        Some(0x72)
    } else if text_eq(u, "F4") {
        Some(0x73)
    } else if text_eq(u, "F5") {
        Some(0x74)
    } else if text_eq(u, "F6") {
        Some(0x75)
    } else if text_eq(u, "F7") {
        Some(0x76)
    } else if text_eq(u, "F8") {
        Some(0x77)
    } else if text_eq(u, "F9") {
        Some(0x78)
    } else if text_eq(u, "F10") {
        Some(0x79)
    } else if text_eq(u, "F11") {
        Some(0x7A)
    } else if text_eq(u, "F12") {
        Some(0x7B)
    } else {
        None
    }
}

} // verus!
