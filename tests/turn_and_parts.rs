use xiaozhi_server::audio::{first_channel, pcm_frames, resample_24k_to_16k, Rechunker, FRAME_SAMPLES, RECOGNIZER_CHUNK};
use xiaozhi_server::chat::{Message, ToolCall, ToolFunction};
use xiaozhi_server::config::{ChatSettings, DbSettings, EdgeTtsConfig, VadSettings};
use xiaozhi_server::json::JsonValue;
use xiaozhi_server::mcp::McpCall;
use xiaozhi_server::pacing::{final_wait, frame_wait};
use xiaozhi_server::protocol::{Emotion, ServerMessage, TtsState};
use xiaozhi_server::services::{parse_i32, setting_value, EdgeTts, LocalStt, LocalTts, TtsTrait};
use xiaozhi_server::store::InMemoryDb;
use xiaozhi_server::text::{clean_text_and_extract_emotion, emotion_of, interpret_reply, strip_marker, trim};
use xiaozhi_server::turn::{
    history_entries, reply_opening, reply_output, speech_closing, spoken_frames, standby_opening, standby_output, tool_output,
    Outbound, Turn, MAX_ROUNDS,
};

fn s(t: &str) -> String {
    t.to_string()
}

fn obj(members: Vec<(&str, JsonValue)>) -> JsonValue {
    JsonValue::Object(members.into_iter().map(|(k, v)| (k.to_string(), v)).collect())
}

#[test]
fn simple_reply_plan_is_ordered() {
    let reply = interpret_reply("hi");
    assert_eq!(reply.text, "hi");
    assert_eq!(reply.emotion, None);
    assert!(!reply.sleep);
    let plan = reply_output(reply, vec![vec![1], vec![2], vec![3]]);
    assert_eq!(plan.len(), 7);
    match &plan[0] {
        Outbound::Message(ServerMessage::Llm { emotion, text }) => {
            assert_eq!(*emotion, Some(Emotion::Happy));
            assert_eq!(text.as_deref(), Some("hi"));
        }
        _ => panic!("expected llm"),
    }
    assert!(matches!(plan[1], Outbound::Message(ServerMessage::Tts { state: TtsState::Start, text: None })));
    match &plan[2] {
        Outbound::Message(ServerMessage::Tts { state: TtsState::SentenceStart, text }) => {
            assert_eq!(text.as_deref(), Some("hi"))
        }
        _ => panic!("expected sentence"),
    }
    for (k, frame) in [1u8, 2, 3].iter().enumerate() {
        match &plan[3 + k] {
            Outbound::Audio(bytes) => assert_eq!(bytes, &vec![*frame]),
            _ => panic!("expected audio"),
        }
    }
    assert!(matches!(plan[6], Outbound::Message(ServerMessage::Tts { state: TtsState::Stop, text: None })));
}

#[test]
fn empty_reply_sends_nothing() {
    let plan = reply_output(interpret_reply("  [SLEEP] "), vec![vec![1]]);
    assert!(plan.is_empty());
}

#[test]
fn sleep_marker_is_removed_and_noted() {
    let reply = interpret_reply("bye[SLEEP]");
    assert_eq!(reply.text, "bye");
    assert!(reply.sleep);
    let plan = reply_output(reply, vec![]);
    assert_eq!(plan.len(), 4);
}

#[test]
fn standby_plan_speaks_prompt() {
    let plan = standby_output(s("still there?"), vec![vec![9]]);
    assert_eq!(plan.len(), 4);
    assert!(matches!(plan[0], Outbound::Message(ServerMessage::Tts { state: TtsState::Start, .. })));
    match &plan[1] {
        Outbound::Message(ServerMessage::Tts { text, .. }) => assert_eq!(text.as_deref(), Some("still there?")),
        _ => panic!(),
    }
    assert!(matches!(plan[3], Outbound::Message(ServerMessage::Tts { state: TtsState::Stop, .. })));
}

#[test]
fn emotion_and_emoji() {
    let (text, emotion) = clean_text_and_extract_emotion("好的😊");
    assert_eq!(text, "好的");
    assert_eq!(emotion, Some(Emotion::Happy));
    assert_eq!(emotion_of("太难了"), Some(Emotion::Sad));
    assert_eq!(emotion_of("我很怒"), Some(Emotion::Angry));
    assert_eq!(emotion_of("plain"), None);
    assert_eq!(emotion_of("哈难"), Some(Emotion::Happy));
}

#[test]
fn trim_and_marker() {
    assert_eq!(trim("  a b \n"), "a b");
    assert_eq!(trim("   "), "");
    let (rest, found) = strip_marker("a[SLEEP]b[SLEEP]", "[SLEEP]");
    assert_eq!(rest, "ab");
    assert!(found);
    let (rest, found) = strip_marker("[SLEE", "[SLEEP]");
    assert_eq!(rest, "[SLEE");
    assert!(!found);
}

#[test]
fn turn_appends_user_message_and_caps_rounds() {
    let history = vec![Message::plain("user", "old"), Message::plain("assistant", "reply")];
    let mut turn = Turn::begin(history, "hello").expect("not blank");
    assert_eq!(turn.messages.len(), 3);
    assert_eq!(turn.messages[2].role, "user");
    assert_eq!(turn.messages[2].content, "hello");
    for _ in 0..MAX_ROUNDS {
        assert!(turn.next_round());
    }
    assert!(!turn.next_round());
    assert!(Turn::begin(vec![], "  ").is_none());
}

#[test]
fn tool_loop_messages() {
    let mut turn = Turn::begin(vec![], "volume up").unwrap();
    let call = ToolCall {
        id: s("a"),
        type_: s("function"),
        function: ToolFunction { name: s("set_volume"), arguments: s("{\"v\":3}") },
    };
    let requests = turn.on_tool_calls(vec![call]);
    assert_eq!(requests.len(), 1);
    assert_eq!(requests[0].0, "a");
    match &requests[0].1 {
        McpCall::ToolsCall { name, arguments } => {
            assert_eq!(name, "set_volume");
            assert_eq!(arguments, "{\"v\":3}");
        }
        _ => panic!(),
    }
    assert_eq!(turn.messages[1].role, "assistant");
    assert_eq!(turn.messages[1].tool_calls.len(), 1);
    let result = obj(vec![(
        "content",
        JsonValue::Array(vec![obj(vec![("type", JsonValue::Str(s("text"))), ("text", JsonValue::Str(s("ok")))])]),
    )]);
    turn.on_tool_reply(s("a"), &Ok(result));
    assert_eq!(turn.messages[2].role, "tool");
    assert_eq!(turn.messages[2].content, "ok");
    assert_eq!(turn.messages[2].tool_call_id.as_deref(), Some("a"));
}

#[test]
fn tool_output_of_errors() {
    assert_eq!(tool_output(&Err(s("closed"))), "Error: closed");
    assert_eq!(tool_output(&Ok(obj(vec![("error", JsonValue::Str(s("bad")))]))), "Error: bad");
    assert_eq!(tool_output(&Ok(JsonValue::Null)), "");
    let two = obj(vec![(
        "content",
        JsonValue::Array(vec![
            obj(vec![("text", JsonValue::Str(s("a")))]),
            obj(vec![("image", JsonValue::Null)]),
            obj(vec![("text", JsonValue::Str(s("b")))]),
        ]),
    )]);
    assert_eq!(tool_output(&Ok(two)), "ab");
}

#[test]
fn pacing_holds_frames_after_head_start() {
    assert_eq!(frame_wait(1000, 1000, 0), 0);
    assert_eq!(frame_wait(1000, 1000, 1), 0);
    assert_eq!(frame_wait(1000, 1000, 2), 0);
    assert_eq!(frame_wait(1000, 1000, 3), 60);
    assert_eq!(frame_wait(1000, 1030, 4), 90);
    assert_eq!(frame_wait(1000, 2000, 4), 0);
    assert_eq!(final_wait(1000, 1100, 5), 200 + 500);
    assert_eq!(final_wait(1000, 5000, 5), 500);
}

#[test]
fn resample_interpolates() {
    assert_eq!(resample_24k_to_16k(&[0, 10, 20, 30, 40, 50]), vec![0, 15, 30, 45]);
    assert_eq!(resample_24k_to_16k(&[-1, -2, 0]), vec![-1, -1]);
    assert_eq!(resample_24k_to_16k(&[7]), Vec::<i16>::new());
    assert_eq!(resample_24k_to_16k(&[i16::MAX, i16::MAX, 0, 0, 0]).len(), 3);
}

#[test]
fn frames_are_padded() {
    let pcm: Vec<i16> = (0..1000).map(|i| i as i16).collect();
    let frames = pcm_frames(&pcm);
    assert_eq!(frames.len(), 2);
    assert_eq!(frames[1].len(), FRAME_SAMPLES);
    assert_eq!(frames[1][39], 999);
    assert_eq!(frames[1][40], 0);
    assert!(pcm_frames(&[]).is_empty());
}

#[test]
fn recognizer_chunks() {
    let mut chunker = Rechunker::new(RECOGNIZER_CHUNK);
    assert!(chunker.push(&vec![1; 300]).is_empty());
    let out = chunker.push(&vec![2; 800]);
    assert_eq!(out.len(), 2);
    assert_eq!(out[0][299], 1);
    assert_eq!(out[0][300], 2);
    let last = chunker.finish().unwrap();
    assert_eq!(last.len(), 512);
    assert_eq!(last[75], 2);
    assert_eq!(last[76], 0);
}

#[test]
fn first_channel_of_stereo() {
    assert_eq!(first_channel(&[1, 2, 3, 4, 5], 2), vec![1, 3, 5]);
    assert_eq!(first_channel(&[1, 2], 1), vec![1, 2]);
}

#[test]
fn history_round_trip_in_store() {
    let mut db = InMemoryDb::new();
    db.add_chat_history("dev", "user", "old");
    db.add_chat_history("other", "user", "x");
    db.add_chat_history("dev", "user", "U");
    db.add_chat_history("dev", "assistant", "T");
    let h = db.get_chat_history("dev", 2);
    assert_eq!(h.len(), 2);
    assert_eq!((h[0].role.as_str(), h[0].content.as_str()), ("user", "U"));
    assert_eq!((h[1].role.as_str(), h[1].content.as_str()), ("assistant", "T"));
    assert_eq!(db.get_chat_history("dev", 10).len(), 3);
    assert!(db.get_chat_history("nobody", 5).is_empty());
}

#[test]
fn challenges_expire_and_activation_clears_them() {
    let mut db = InMemoryDb::new();
    db.add_challenge("dev", "abc", 300, 1_000);
    assert_eq!(db.get_challenge("dev", 1_000).as_deref(), Some("abc"));
    assert_eq!(db.get_challenge("dev", 301_000), None);
    db.add_challenge("dev", "def", 1, 1_000);
    assert_eq!(db.get_challenge("dev", 1_999).as_deref(), Some("def"));
    assert!(!db.is_activated("dev"));
    db.activate_device("dev");
    assert!(db.is_activated("dev"));
    assert_eq!(db.get_challenge("dev", 1_000), None);
}

#[test]
fn defaults_and_providers() {
    assert_eq!(DbSettings::default().db_type, "memory");
    assert_eq!(VadSettings::default().silence_duration_ms, 2500);
    let chat = ChatSettings::default();
    assert_eq!(chat.max_idle_duration, 30000);
    assert_eq!(chat.standby_prompt, "請問你還在嗎？");
    let edge = EdgeTtsConfig::defaults();
    let tts = EdgeTts::new(edge.voice, edge.rate, edge.pitch, edge.volume);
    assert_eq!(tts.speech_numbers(), (0, 0, 0));
    assert_eq!(setting_value("-5Hz"), -5);
    assert_eq!(setting_value("+12%"), 12);
    assert_eq!(setting_value("loud"), 0);
    assert_eq!(LocalStt::new().recognize(&[1, 2]).unwrap(), "Hello Gemini");
    let frames = LocalTts::new().speak("x", None).unwrap();
    assert_eq!(frames, vec![vec![0u8; 10]]);
}

#[test]
fn opening_and_closing_of_speech() {
    let reply = interpret_reply("哈哈😂");
    assert_eq!(reply.text, "哈哈");
    assert_eq!(reply.emotion, Some(Emotion::Happy));
    let opening = reply_opening(&reply);
    assert_eq!(opening.len(), 3);
    assert!(matches!(opening[1], Outbound::Message(ServerMessage::Tts { state: TtsState::Start, text: None })));
    let history = history_entries("笑一个", &reply);
    assert_eq!(history, vec![(s("user"), s("笑一个")), (s("assistant"), s("哈哈"))]);
    assert!(history_entries("x", &interpret_reply("[SLEEP]")).is_empty());
    let closing = speech_closing(spoken_frames(Err(s("down"))));
    assert_eq!(closing.len(), 1);
    assert!(matches!(closing[0], Outbound::Message(ServerMessage::Tts { state: TtsState::Stop, text: None })));
    let closing = speech_closing(spoken_frames(Ok(vec![vec![7], vec![8]])));
    assert_eq!(closing.len(), 3);
    assert_eq!(standby_opening("p").len(), 2);
}

#[test]
fn clean_text_scrubs_emoji_only() {
    assert_eq!(clean_text_and_extract_emotion("哈哈😂").0, "哈哈");
    assert_eq!(clean_text_and_extract_emotion("a😡b😢c").0, "abc");
    assert_eq!(trim("\u{3000}hi\u{a0}"), "hi");
}

#[test]
fn activation_leaves_other_devices() {
    let mut db = InMemoryDb::new();
    db.add_challenge("a", "ca", 300, 0);
    db.add_challenge("b", "cb", 300, 0);
    db.activate_device("a");
    db.activate_device("a");
    assert!(db.is_activated("a"));
    assert!(!db.is_activated("b"));
    assert_eq!(db.get_challenge("b", 0).as_deref(), Some("cb"));
    assert_eq!(db.get_challenge("a", 0), None);
}

#[test]
fn integers_parse_like_std() {
    for t in ["+12", "-2147483648", "2147483647", "2147483648", "", "-", "+", "1a", "007", "-0", "99999999999"] {
        assert_eq!(parse_i32(t), t.parse::<i32>().ok(), "{}", t);
    }
}
