//! Conversation records exchanged with the language model, the recognizer and the store.
use vstd::prelude::*;
use crate::json::JsonValue;

verus! {

/// What the recognizer reports while audio streams in.
pub enum SttEvent {
    /// Newly recognized text, to be appended to the transcript.
    Text(String),
    /// Sustained silence: the utterance has ended.
    NoSpeech,
}

/// The function part of a tool invocation requested by the model.
pub struct ToolFunction {
    pub name: String,
    /// Arguments as a JSON text.
    pub arguments: String,
}

/// One tool invocation requested by the model; `id` is unique within a turn.
pub struct ToolCall {
    pub id: String,
    pub type_: String,
    pub function: ToolFunction,
}

/// One message of a conversation.
pub struct Message {
    /// `user`, `assistant` or `tool`.
    pub role: String,
    pub content: String,
    pub tool_calls: Vec<ToolCall>,
    /// Set on a `tool` message: the invocation it answers.
    pub tool_call_id: Option<String>,
}

/// A tool offered to the model.
pub struct ToolDefinition {
    pub name: String,
    pub description: String,
    pub parameters: JsonValue,
}

/// The model's answer to one request.
pub enum ChatResponse {
    Text(String),
    ToolCall(Vec<ToolCall>),
}

impl Message {
    /// A message with no tool data.
    pub fn plain(role: &str, content: &str) -> (r: Message)
        ensures
            r.role@ == role@,
            r.content@ == content@,
            r.tool_calls@.len() == 0,
            r.tool_call_id is None,
    {
        Message {
            role: role.to_owned(),
            content: content.to_owned(),
            tool_calls: Vec::new(),
            tool_call_id: None,
        }
    }
}

} // verus!
