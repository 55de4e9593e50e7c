//! Which providers a configuration selects.
use vstd::prelude::*;
use crate::config::{EdgeTtsConfig, ServerConfig};
use crate::json::str_eq;

verus! {

/// Where conversation history and activations are kept.
#[derive(PartialEq, Eq, Structural, Clone, Copy, Debug)]
pub enum StoreKind {
    Sql,
    Memory,
}

/// The language-model service.
#[derive(PartialEq, Eq, Structural, Clone, Copy, Debug)]
pub enum LlmKind {
    Gemini,
    OpenAi,
    Ollama,
}

/// The speech synthesizer.
#[derive(PartialEq, Eq, Structural, Clone, Copy, Debug)]
pub enum TtsKind {
    Edge,
    Gemini,
    Opus,
}

/// `sql` selects the SQL store; anything else keeps history in memory.
pub fn store_kind(config: &ServerConfig) -> (r: StoreKind)
    ensures
        r == (if config.db.db_type@ == "sql"@ { StoreKind::Sql } else { StoreKind::Memory }),
{
    if str_eq(config.db.db_type.as_str(), "sql") {
        StoreKind::Sql
    } else {
        StoreKind::Memory
    }
}

/// The configured language model; `None` for a provider name that is not known.
pub fn llm_kind(config: &ServerConfig) -> (r: Option<LlmKind>)
    ensures
        r == (if config.llm.provider@ == "gemini"@ {
            Some(LlmKind::Gemini)
        } else if config.llm.provider@ == "openai"@ {
            Some(LlmKind::OpenAi)
        } else if config.llm.provider@ == "ollama"@ {
            Some(LlmKind::Ollama)
        } else {
            None
        }),
{
    let p = config.llm.provider.as_str();
    if str_eq(p, "gemini") {
        Some(LlmKind::Gemini)
    } else if str_eq(p, "openai") {
        Some(LlmKind::OpenAi)
    } else if str_eq(p, "ollama") {
        Some(LlmKind::Ollama)
    } else {
        None
    }
}

/// The configured synthesizer; `None` for a provider name that is not known.
pub fn tts_kind(config: &ServerConfig) -> (r: Option<TtsKind>)
    ensures
        r == (if config.tts.provider@ == "edge"@ {
            Some(TtsKind::Edge)
        } else if config.tts.provider@ == "gemini"@ {
            Some(TtsKind::Gemini)
        } else if config.tts.provider@ == "opus"@ {
            Some(TtsKind::Opus)
        } else {
            None
        }),
{
    let p = config.tts.provider.as_str();
    if str_eq(p, "edge") {
        Some(TtsKind::Edge)
    } else if str_eq(p, "gemini") {
        Some(TtsKind::Gemini)
    } else if str_eq(p, "opus") {
        Some(TtsKind::Opus)
    } else {
        None
    }
}

/// The voice settings of the Edge synthesizer: the configured ones, else the defaults.
pub fn edge_settings(config: &ServerConfig) -> (r: EdgeTtsConfig)
    ensures
        config.tts.edge matches Some(e) ==> r.voice@ == e.voice@ && r.rate@ == e.rate@ && r.pitch@ == e.pitch@
            && r.volume@ == e.volume@,
        config.tts.edge is None ==> r.voice@ == "zh-TW-HsiaoChenNeural"@ && r.rate@ == "+0%"@ && r.pitch@ == "+0Hz"@
            && r.volume@ == "+0%"@,
{
    match &config.tts.edge {
        Some(e) => EdgeTtsConfig {
            voice: e.voice.clone(),
            rate: e.rate.clone(),
            pitch: e.pitch.clone(),
            volume: e.volume.clone(),
        },
        None => EdgeTtsConfig::defaults(),
    }
}

/// The key of the Gemini synthesizer: its own when configured, else the model's key.
pub fn gemini_tts_key(config: &ServerConfig) -> (r: Option<String>)
    ensures
        config.tts.gemini is None ==> r is None,
        config.tts.gemini matches Some(g) ==> r matches Some(k) && k@ == (match g.api_key {
            Some(own) => own@,
            None => config.llm.api_key@,
        }),
{
    match &config.tts.gemini {
        Some(g) => match &g.api_key {
            Some(k) => Some(k.clone()),
            None => Some(config.llm.api_key.clone()),
        },
        None => None,
    }
}

} // verus!
