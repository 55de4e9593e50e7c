use xiaozhi_server::chat::{ChatResponse, Message, ToolDefinition};
use xiaozhi_server::json::JsonValue;
use xiaozhi_server::llm::{chat_completion_reply, chat_completion_request, merged_instruction, text_completion_reply, trimmed_base_url, TECH_INSTRUCTION};
use xiaozhi_server::synth::{inline_speech_pcm, mp3_speech_pcm, pcm_of_frames, Mp3Frame};

fn s(t: &str) -> String {
    t.to_string()
}

fn obj(members: Vec<(&str, JsonValue)>) -> JsonValue {
    JsonValue::Object(members.into_iter().map(|(k, v)| (k.to_string(), v)).collect())
}

fn completion(message: JsonValue) -> JsonValue {
    obj(vec![("choices", JsonValue::Array(vec![obj(vec![("message", message)])]))])
}

#[test]
fn reply_with_tool_calls() {
    let call = obj(vec![
        ("id", JsonValue::Str(s("a"))),
        ("type", JsonValue::Str(s("function"))),
        (
            "function",
            obj(vec![("name", JsonValue::Str(s("set_volume"))), ("arguments", JsonValue::Str(s("{\"v\":3}")))]),
        ),
    ]);
    let reply = completion(obj(vec![("content", JsonValue::Null), ("tool_calls", JsonValue::Array(vec![call]))]));
    match chat_completion_reply(&reply) {
        Ok(ChatResponse::ToolCall(calls)) => {
            assert_eq!(calls.len(), 1);
            assert_eq!(calls[0].id, "a");
            assert_eq!(calls[0].type_, "function");
            assert_eq!(calls[0].function.name, "set_volume");
            assert_eq!(calls[0].function.arguments, "{\"v\":3}");
        }
        _ => panic!("expected tool calls"),
    }
}

#[test]
fn reply_with_text_or_nothing() {
    let reply = completion(obj(vec![("content", JsonValue::Str(s("done"))), ("tool_calls", JsonValue::Array(vec![]))]));
    assert!(matches!(chat_completion_reply(&reply), Ok(ChatResponse::Text(t)) if t == "done"));
    assert!(matches!(chat_completion_reply(&JsonValue::Null), Ok(ChatResponse::Text(t)) if t.is_empty()));
    let broken = completion(obj(vec![("tool_calls", JsonValue::Array(vec![obj(vec![("id", JsonValue::Int(1))])]))]));
    assert!(chat_completion_reply(&broken).is_err());
    assert_eq!(text_completion_reply(&completion(obj(vec![("content", JsonValue::Str(s("hi")))]))).unwrap(), "hi");
    assert!(text_completion_reply(&obj(vec![])).is_err());
}

#[test]
fn instruction_and_base_url() {
    assert_eq!(merged_instruction(None), TECH_INSTRUCTION);
    assert_eq!(merged_instruction(Some("Be brief.")), format!("Be brief. {}", TECH_INSTRUCTION));
    assert_eq!(trimmed_base_url("http://h/v1//"), "http://h/v1");
    assert_eq!(trimmed_base_url("http://h"), "http://h");
}

#[test]
fn inline_audio_is_decoded_and_resampled() {
    let data = obj(vec![("inlineData", obj(vec![("data", JsonValue::Str(s("CgAUAB4A")))]))]);
    let reply = obj(vec![(
        "candidates",
        JsonValue::Array(vec![obj(vec![("content", obj(vec![("parts", JsonValue::Array(vec![data]))]))])]),
    )]);
    assert_eq!(inline_speech_pcm(&reply), Some(vec![10, 25]));
    assert_eq!(inline_speech_pcm(&obj(vec![])), None);
}

#[test]
fn decoded_frames_become_mono_pcm() {
    let frames = vec![
        Mp3Frame { data: vec![1, 2, 3, 4], sample_rate: 16000, channels: 2 },
        Mp3Frame { data: vec![5, 6], sample_rate: 16000, channels: 2 },
    ];
    assert_eq!(pcm_of_frames(&frames), vec![1, 3, 5]);
    let frames = vec![Mp3Frame { data: vec![0, 10, 20, 30, 40, 50], sample_rate: 24000, channels: 1 }];
    assert_eq!(pcm_of_frames(&frames), vec![0, 15, 30, 45]);
    assert_eq!(mp3_speech_pcm(&[]).unwrap(), Vec::<i16>::new());
}

#[test]
fn request_body_carries_conversation() {
    let messages = vec![Message::plain("user", "hi"), Message::plain("assistant", "hello")];
    let tools = vec![ToolDefinition { name: s("set_volume"), description: s("d"), parameters: obj(vec![]) }];
    let body = chat_completion_request("m", Some("sys"), &messages, &tools, false);
    assert_eq!(body.get("model").and_then(|v| v.as_str()), Some("m"));
    let ms = match body.get("messages") {
        Some(JsonValue::Array(ms)) => ms,
        _ => panic!("messages"),
    };
    assert_eq!(ms.len(), 3);
    assert_eq!(ms[0].get("role").and_then(|v| v.as_str()), Some("system"));
    assert_eq!(ms[0].get("content").and_then(|v| v.as_str()), Some("sys"));
    assert_eq!(ms[2].get("content").and_then(|v| v.as_str()), Some("hello"));
    assert!(matches!(body.get("tools"), Some(JsonValue::Array(ts)) if ts.len() == 1));
    assert!(body.get("stream").is_none());
    let body = chat_completion_request("m", None, &messages, &Vec::new(), true);
    assert!(body.get("tools").is_none());
    assert!(matches!(body.get("stream"), Some(JsonValue::Bool(false))));
}

#[test]
fn generated_content_reply_parts() {
    let call = obj(vec![(
        "functionCall",
        obj(vec![("name", JsonValue::Str(s("set_volume"))), ("args", obj(vec![("v", JsonValue::Int(3))]))]),
    )]);
    let text = obj(vec![("text", JsonValue::Str(s("ok ")))]);
    let more = obj(vec![("text", JsonValue::Str(s("done")))]);
    let reply = obj(vec![(
        "candidates",
        JsonValue::Array(vec![obj(vec![("content", obj(vec![("parts", JsonValue::Array(vec![text, call, more]))]))])]),
    )]);
    let r = xiaozhi_server::llm::content_reply(&reply).unwrap();
    assert_eq!(r.text, "ok done");
    assert_eq!(r.calls.len(), 1);
    assert_eq!(r.calls[0].0, "set_volume");
    assert!(matches!(r.calls[0].1.get("v"), Some(JsonValue::Int(3))));
    assert!(xiaozhi_server::llm::content_reply(&obj(vec![])).is_none());
}
