use xiaozhi_server::chat::SttEvent;
use xiaozhi_server::json::JsonValue;
use xiaozhi_server::mcp::{format_rpc_error, int_to_text, McpCall, McpRequest};
use xiaozhi_server::protocol::{AudioParams, ClientMessage, ListenState, ServerMessage};
use xiaozhi_server::session::{Action, ConversationState, Session, SessionEvent, ToolDiscovery};

fn s(t: &str) -> String {
    t.to_string()
}

fn obj(members: Vec<(&str, JsonValue)>) -> JsonValue {
    JsonValue::Object(members.into_iter().map(|(k, v)| (k.to_string(), v)).collect())
}

fn hello(mcp: bool) -> SessionEvent {
    let features = if mcp { Some(obj(vec![("mcp", JsonValue::Bool(true))])) } else { None };
    SessionEvent::Control(ClientMessage::Hello {
        version: 1,
        transport: s("websocket"),
        audio_params: AudioParams { format: s("opus"), sample_rate: 16000, channels: 1, frame_duration: 60 },
        features,
    })
}

fn listen(state: ListenState) -> SessionEvent {
    SessionEvent::Control(ClientMessage::Listen { session_id: s("s"), state: Some(state), mode: None, text: None })
}

fn reply(id: i64, result: JsonValue) -> SessionEvent {
    SessionEvent::Control(ClientMessage::Mcp {
        payload: obj(vec![("jsonrpc", JsonValue::Str(s("2.0"))), ("id", JsonValue::Int(id)), ("result", result)]),
        session_id: None,
    })
}

fn new_session(max_idle: u64, prompt: &str) -> Session {
    Session::new(s("dev"), max_idle, s(prompt), 0)
}

#[test]
fn greeting_answers_with_server_hello() {
    let mut session = new_session(30000, "p");
    let actions = session.step(hello(false), 1);
    assert_eq!(actions.len(), 1);
    match &actions[0] {
        Action::Send(ServerMessage::Hello { transport, audio_params: Some(p) }) => {
            assert_eq!(transport, "websocket");
            assert_eq!(p.sample_rate, 16000);
            assert_eq!(p.frame_duration, 60);
        }
        _ => panic!("expected hello"),
    }
    assert_eq!(session.discovery, ToolDiscovery::Disabled);
}

#[test]
fn greeting_with_tools_sends_initialize_with_id_one() {
    let mut session = new_session(30000, "p");
    let actions = session.step(hello(true), 1);
    assert_eq!(actions.len(), 2);
    match &actions[1] {
        Action::Send(ServerMessage::Mcp { payload, session_id }) => {
            assert_eq!(payload.id, 1);
            assert!(matches!(payload.call, McpCall::Initialize));
            assert!(session_id.is_none());
        }
        _ => panic!("expected initialize"),
    }
    assert_eq!(session.discovery, ToolDiscovery::Initializing);
}

#[test]
fn simple_turn_hands_transcript_over() {
    let mut session = new_session(30000, "p");
    session.step(hello(false), 0);
    assert!(session.step(listen(ListenState::Start), 10).is_empty());
    for _ in 0..20 {
        let actions = session.step(SessionEvent::Audio(vec![0xf8, 0xff, 0xfe]), 20);
        assert_eq!(actions.len(), 1);
        assert!(matches!(actions[0], Action::Recognize(_)));
    }
    let actions = session.step(SessionEvent::Recognized(SttEvent::Text(s("hello"))), 30);
    match &actions[0] {
        Action::Send(ServerMessage::Stt { text }) => assert_eq!(text, "hello "),
        _ => panic!("expected stt"),
    }
    let actions = session.step(listen(ListenState::Stop), 40);
    assert_eq!(actions.len(), 1);
    match &actions[0] {
        Action::StartTurn(text) => assert_eq!(text, "hello "),
        _ => panic!("expected a turn"),
    }
    assert_eq!(session.state, ConversationState::Processing);
    assert!(session.turn_active);
    assert_eq!(session.transcript, "");
}

#[test]
fn end_of_utterance_starts_turn_once() {
    let mut session = new_session(30000, "p");
    session.step(SessionEvent::Recognized(SttEvent::Text(s("hi"))), 5);
    let first = session.step(SessionEvent::Recognized(SttEvent::NoSpeech), 6);
    assert_eq!(first.len(), 1);
    session.step(SessionEvent::Recognized(SttEvent::Text(s("again"))), 7);
    let second = session.step(SessionEvent::Recognized(SttEvent::NoSpeech), 8);
    assert!(second.is_empty());
    session.step(SessionEvent::TurnFinished, 9);
    assert_eq!(session.state, ConversationState::Listening);
    let third = session.step(SessionEvent::Recognized(SttEvent::NoSpeech), 10);
    assert_eq!(third.len(), 1);
}

#[test]
fn audio_while_processing_is_dropped() {
    let mut session = new_session(30000, "p");
    session.step(SessionEvent::Recognized(SttEvent::Text(s("x"))), 1);
    session.step(listen(ListenState::Stop), 2);
    assert_eq!(session.state, ConversationState::Processing);
    let actions = session.step(SessionEvent::Audio(vec![1, 2, 3]), 3);
    assert!(actions.is_empty());
}

#[test]
fn abort_clears_transcript_so_stop_does_nothing() {
    let mut session = new_session(30000, "p");
    session.step(listen(ListenState::Start), 1);
    session.step(SessionEvent::Recognized(SttEvent::Text(s("half a sentence"))), 2);
    let abort = SessionEvent::Control(ClientMessage::Abort { session_id: s("s"), reason: s("user") });
    assert!(session.step(abort, 3).is_empty());
    assert_eq!(session.transcript, "");
    assert!(session.step(listen(ListenState::Stop), 4).is_empty());
    assert_eq!(session.state, ConversationState::Listening);
}

#[test]
fn idle_standby_plays_prompt_once_then_closes() {
    let mut session = new_session(500, "still there?");
    session.step(hello(false), 0);
    assert_eq!(session.idle_wait(100), 400);
    assert!(session.step(SessionEvent::IdleTimeout, 400).is_empty());
    let actions = session.step(SessionEvent::IdleTimeout, 500);
    assert_eq!(actions.len(), 1);
    match &actions[0] {
        Action::Standby(prompt) => assert_eq!(prompt, "still there?"),
        _ => panic!("expected standby"),
    }
    session.step(SessionEvent::Audio(vec![1]), 550);
    assert!(session.step(SessionEvent::IdleTimeout, 700).is_empty());
    let actions = session.step(SessionEvent::SleepRequested, 800);
    assert!(matches!(actions[0], Action::Close));
    assert!(session.closed);
}

#[test]
fn idle_timer_is_suspended_while_processing() {
    let mut session = new_session(500, "p");
    session.step(SessionEvent::Recognized(SttEvent::Text(s("x"))), 0);
    session.step(listen(ListenState::Stop), 0);
    assert_eq!(session.idle_wait(10_000), 86_400_000);
    assert!(session.step(SessionEvent::IdleTimeout, 10_000).is_empty());
    session.step(SessionEvent::TurnFinished, 10_000);
    assert_eq!(session.last_activity, 10_000);
    assert_eq!(session.idle_wait(10_100), 400);
    assert_eq!(session.idle_wait(20_000), 100);
}

#[test]
fn ping_gets_pong_and_close_ends_loop() {
    let mut session = new_session(500, "p");
    let actions = session.step(SessionEvent::Ping, 1);
    assert!(matches!(actions[0], Action::Pong));
    assert!(session.step(SessionEvent::Closed, 2).is_empty());
    assert!(session.closed);
}

fn tool_list() -> JsonValue {
    obj(vec![(
        "tools",
        JsonValue::Array(vec![obj(vec![
            ("name", JsonValue::Str(s("set_volume"))),
            ("description", JsonValue::Str(s("Set the volume"))),
            ("inputSchema", obj(vec![("type", JsonValue::Str(s("object")))])),
        ])]),
    )])
}

#[test]
fn tool_discovery_and_call_round_trip() {
    let mut session = new_session(30000, "p");
    session.step(listen(ListenState::Detect), 0);
    session.step(hello(true), 0);
    let actions = session.step(reply(1, obj(vec![])), 1);
    match &actions[0] {
        Action::Send(ServerMessage::Mcp { payload, session_id }) => {
            assert_eq!(payload.id, 2);
            assert!(matches!(&payload.call, McpCall::ToolsList { cursor } if cursor.is_empty()));
            assert_eq!(session_id.as_deref(), Some("s"));
        }
        _ => panic!("expected tools/list"),
    }
    assert_eq!(session.discovery, ToolDiscovery::Ready);
    assert!(session.step(reply(2, tool_list()), 2).is_empty());
    assert_eq!(session.tools.len(), 1);
    assert_eq!(session.tools[0].name, "set_volume");
    let defs = session.tool_definitions();
    assert_eq!(defs[0].description, "Set the volume");
    match &defs[0].parameters {
        JsonValue::Object(fields) => {
            assert_eq!(fields[0].0, "type");
            assert!(matches!(&fields[0].1, JsonValue::Str(t) if t == "object"));
        }
        _ => panic!("expected the schema"),
    }

    let message = session
        .issue_rpc(McpCall::ToolsCall { name: s("set_volume"), arguments: s("{\"v\":3}") })
        .expect("an id is left");
    let id = match &message {
        ServerMessage::Mcp { payload, .. } => payload.id,
        _ => panic!("expected a request"),
    };
    assert_eq!(id, 3);
    session.rpc_enqueued(id);
    assert_eq!(session.pending, vec![3]);
    let content = obj(vec![(
        "content",
        JsonValue::Array(vec![obj(vec![("type", JsonValue::Str(s("text"))), ("text", JsonValue::Str(s("ok")))])]),
    )]);
    let actions = session.step(reply(3, content), 3);
    match &actions[0] {
        Action::CompleteRpc { id, reply: Ok(v) } => {
            assert_eq!(*id, 3);
            assert_eq!(xiaozhi_server::turn::tool_output(&Ok(v.deep_copy())), "ok");
        }
        _ => panic!("expected completion"),
    }
    assert!(session.pending.is_empty());
    // a second reply with the same id completes nothing
    let again = session.step(reply(3, obj(vec![])), 4);
    assert!(again.iter().all(|a| !matches!(a, Action::CompleteRpc { .. })));
}

#[test]
fn rpc_error_reply_reaches_waiter_as_text() {
    let mut session = new_session(30000, "p");
    let message = session.issue_rpc(McpCall::Initialize).unwrap();
    let id = match message {
        ServerMessage::Mcp { payload, .. } => payload.id,
        _ => unreachable!(),
    };
    session.rpc_enqueued(id);
    let payload = obj(vec![
        ("jsonrpc", JsonValue::Str(s("2.0"))),
        ("id", JsonValue::Int(id as i64)),
        ("error", obj(vec![("code", JsonValue::Int(-32601)), ("message", JsonValue::Str(s("no such method")))])),
    ]);
    let actions = session.step(SessionEvent::Control(ClientMessage::Mcp { payload, session_id: None }), 1);
    match &actions[0] {
        Action::CompleteRpc { reply: Err(e), .. } => assert_eq!(e, "-32601: no such method"),
        _ => panic!("expected an error"),
    }
}

#[test]
fn teardown_hands_back_pending_ids_once() {
    let mut session = new_session(30000, "p");
    for _ in 0..3 {
        let m = session.issue_rpc(McpCall::Initialize).unwrap();
        if let ServerMessage::Mcp { payload, .. } = m {
            session.rpc_enqueued(payload.id);
            session.rpc_enqueued(payload.id);
        }
    }
    session.rpc_enqueued(99);
    assert_eq!(session.teardown(), vec![1, 2, 3]);
    assert!(session.pending.is_empty());
    assert!(session.closed);
}

#[test]
fn notification_changes_nothing() {
    let mut session = new_session(30000, "p");
    session.step(hello(true), 0);
    let note = obj(vec![("jsonrpc", JsonValue::Str(s("2.0"))), ("method", JsonValue::Str(s("notify")))]);
    let actions = session.step(SessionEvent::Control(ClientMessage::Mcp { payload: note, session_id: None }), 1);
    assert!(actions.is_empty());
    assert_eq!(session.discovery, ToolDiscovery::Initializing);
}

#[test]
fn envelopes_of_requests() {
    let init = McpRequest { id: 1, call: McpCall::Initialize }.envelope(None);
    assert_eq!(init.jsonrpc, "2.0");
    assert_eq!(init.method, "initialize");
    assert!(matches!(init.id, Some(JsonValue::Int(1))));
    let params = init.params.unwrap();
    assert_eq!(params.get("protocolVersion").and_then(|v| v.as_str()), Some("2024-11-05"));
    let info = params.get("clientInfo").unwrap();
    assert_eq!(info.get("name").and_then(|v| v.as_str()), Some("XiaoZhi Server"));
    assert_eq!(info.get("version").and_then(|v| v.as_str()), Some("1.0.0"));
    let list = McpRequest { id: 2, call: McpCall::ToolsList { cursor: s("") } }.envelope(None);
    assert_eq!(list.method, "tools/list");
    assert_eq!(list.params.unwrap().get("cursor").and_then(|v| v.as_str()), Some(""));
    let args = obj(vec![("v", JsonValue::Int(3))]);
    let call = McpRequest { id: 3, call: McpCall::ToolsCall { name: s("set_volume"), arguments: s("{\"v\":3}") } }
        .envelope(Some(args));
    assert_eq!(call.method, "tools/call");
    let params = call.params.unwrap();
    assert_eq!(params.get("name").and_then(|v| v.as_str()), Some("set_volume"));
    assert!(matches!(params.get("arguments").and_then(|a| a.get("v")), Some(JsonValue::Int(3))));
    let bad = McpRequest { id: 4, call: McpCall::ToolsCall { name: s("x"), arguments: s("not json") } }.envelope(None);
    assert!(matches!(bad.params.unwrap().get("arguments"), Some(JsonValue::Object(f)) if f.is_empty()));
}

#[test]
fn error_text_of_extreme_codes() {
    assert_eq!(format_rpc_error(i64::MIN, "m"), "-9223372036854775808: m");
    assert_eq!(format_rpc_error(0, ""), "0: ");
    assert_eq!(int_to_text(1203), "1203");
}
