//! Control messages of the device protocol, as values.
//!
//! The transport turns wire JSON into `ClientMessage` and `ServerMessage` into wire JSON.
use vstd::prelude::*;
use crate::json::JsonValue;
use crate::mcp::McpRequest;

verus! {

/// Sample rate of all PCM the engine handles.
pub const SAMPLE_RATE: u32 = 16000;

/// Duration of one audio frame on the wire, in milliseconds.
pub const FRAME_DURATION_MS: u32 = 60;

/// Audio parameters a device announces in its greeting.
pub struct AudioParams {
    pub format: String,
    pub sample_rate: u32,
    pub channels: u32,
    pub frame_duration: u32,
}

/// The `state` of a `listen` message.
#[derive(PartialEq, Eq, Structural, Clone, Copy, Debug)]
pub enum ListenState {
    Start,
    Stop,
    Detect,
}

/// The `mode` of a `listen` message.
#[derive(PartialEq, Eq, Structural, Clone, Copy, Debug)]
pub enum ListenMode {
    Auto,
    Manual,
    Realtime,
}

/// The `state` of a `tts` message.
#[derive(PartialEq, Eq, Structural, Clone, Copy, Debug)]
pub enum TtsState {
    Start,
    Stop,
    SentenceStart,
}

/// A coarse emotion tag attached to assistant text.
#[derive(PartialEq, Eq, Structural, Clone, Copy, Debug)]
pub enum Emotion {
    Happy,
    Sad,
    Angry,
}

/// Device to server control messages.
pub enum ClientMessage {
    Hello { version: u32, transport: String, audio_params: AudioParams, features: Option<JsonValue> },
    /// `state` is `None` for a state word the protocol does not know.
    Listen { session_id: String, state: Option<ListenState>, mode: Option<String>, text: Option<String> },
    Abort { session_id: String, reason: String },
    Iot { session_id: String, descriptors: Option<JsonValue>, states: Option<JsonValue> },
    Mcp { payload: JsonValue, session_id: Option<String> },
}

/// Audio parameters the server answers with.
pub struct AudioParamsResponse {
    pub sample_rate: u32,
    pub frame_duration: u32,
}

/// Server to device control messages.
pub enum ServerMessage {
    Hello { transport: String, audio_params: Option<AudioParamsResponse> },
    Stt { text: String },
    Tts { state: TtsState, text: Option<String> },
    Llm { emotion: Option<Emotion>, text: Option<String> },
    Iot { commands: Vec<JsonValue> },
    Mcp { payload: McpRequest, session_id: Option<String> },
}

} // verus!
