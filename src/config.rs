//! Server configuration and its defaults.
use vstd::prelude::*;

verus! {

/// The whole configuration.
pub struct ServerConfig {
    pub server: ServerSettings,
    pub auth: AuthSettings,
    pub ota: OtaSettings,
    pub llm: LlmSettings,
    pub stt: SttSettings,
    pub tts: TtsSettings,
    pub db: DbSettings,
    pub vad: VadSettings,
    pub chat: ChatSettings,
}

pub struct ServerSettings {
    pub port: u16,
    pub host: String,
}

pub struct AuthSettings {
    pub enable: bool,
    pub signature_key: String,
}

pub struct OtaSettings {
    pub firmware_version: String,
    pub websocket_url: Option<String>,
    pub websocket_token: Option<String>,
    pub mqtt: MqttConfig,
}

pub struct MqttConfig {
    pub enable: bool,
    pub endpoint: String,
}

pub struct LlmSettings {
    pub provider: String,
    pub api_key: String,
    pub model: String,
    /// How many stored messages a turn starts from.
    pub history_limit: usize,
    pub system_instruction: Option<String>,
}

pub struct SttSettings {
    pub provider: String,
}

pub struct TtsSettings {
    pub provider: String,
    pub gemini: Option<GeminiTtsConfig>,
    pub edge: Option<EdgeTtsConfig>,
}

pub struct GeminiTtsConfig {
    pub api_key: Option<String>,
    pub model: String,
    pub voice_name: String,
}

pub struct EdgeTtsConfig {
    pub voice: String,
    pub rate: String,
    pub pitch: String,
    pub volume: String,
}

pub struct DbSettings {
    pub db_type: String,
    pub url: String,
}

pub struct VadSettings {
    /// Silence that ends an utterance, in milliseconds.
    pub silence_duration_ms: u32,
}

pub struct ChatSettings {
    /// Inactivity after which the standby prompt plays, in milliseconds.
    pub max_idle_duration: u64,
    pub standby_prompt: String,
}

pub fn default_llm_model() -> (r: String)
    ensures
        r@ == "gemini-3-pro-preview"@,
{
    "gemini-3-pro-preview".to_owned()
}

pub fn default_history_limit() -> (r: usize)
    ensures
        r == 5,
{
    5
}

pub fn default_tts_model() -> (r: String)
    ensures
        r@ == "gemini-2.5-flash-preview-tts"@,
{
    "gemini-2.5-flash-preview-tts".to_owned()
}

pub fn default_tts_voice() -> (r: String)
    ensures
        r@ == "Kore"@,
{
    "Kore".to_owned()
}

pub fn default_edge_voice() -> (r: String)
    ensures
        r@ == "zh-TW-HsiaoChenNeural"@,
{
    "zh-TW-HsiaoChenNeural".to_owned()
}

pub fn default_edge_rate() -> (r: String)
    ensures
        r@ == "+0%"@,
{
    "+0%".to_owned()
}

pub fn default_edge_pitch() -> (r: String)
    ensures
        r@ == "+0Hz"@,
{
    "+0Hz".to_owned()
}

pub fn default_edge_volume() -> (r: String)
    ensures
        r@ == "+0%"@,
{
    "+0%".to_owned()
}

pub fn default_db_url() -> (r: String)
    ensures
        r@ == "sqlite://xiaozhi.db"@,
{
    "sqlite://xiaozhi.db".to_owned()
}

pub fn default_silence_duration() -> (r: u32)
    ensures
        r == 2500,
{
    2500
}

pub fn default_max_idle_duration() -> (r: u64)
    ensures
        r == 30000,
{
    30000
}

pub fn default_standby_prompt() -> (r: String)
    ensures
        r@ == "請問你還在嗎？"@,
{
    "請問你還在嗎？".to_owned()
}

impl Default for DbSettings {
    fn default() -> (r: Self)
        ensures
            r.db_type@ == "memory"@,
            r.url@ == "sqlite://xiaozhi.db"@,
    {
        DbSettings { db_type: "memory".to_owned(), url: default_db_url() }
    }
}

impl Default for VadSettings {
    fn default() -> (r: Self)
        ensures
            r.silence_duration_ms == 2500,
    {
        VadSettings { silence_duration_ms: default_silence_duration() }
    }
}

impl Default for ChatSettings {
    fn default() -> (r: Self)
        ensures
            r.max_idle_duration == 30000,
            r.standby_prompt@ == "請問你還在嗎？"@,
    {
        ChatSettings { max_idle_duration: default_max_idle_duration(), standby_prompt: default_standby_prompt() }
    }
}

impl EdgeTtsConfig {
    /// The voice settings used when none are configured.
    pub fn defaults() -> (r: EdgeTtsConfig)
        ensures
            r.voice@ == "zh-TW-HsiaoChenNeural"@,
            r.rate@ == "+0%"@,
            r.pitch@ == "+0Hz"@,
            r.volume@ == "+0%"@,
    {
        EdgeTtsConfig {
            voice: default_edge_voice(),
            rate: default_edge_rate(),
            pitch: default_edge_pitch(),
            volume: default_edge_volume(),
        }
    }
}

} // verus!
