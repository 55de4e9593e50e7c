//! The per-session interaction engine: one state machine that every event of a
//! connection passes through.
//!
//! The transport runs the loop. It hands each event to the matching method here and
//! performs the actions that come back, in order; it stops once `closed` is set.
use vstd::prelude::*;
use crate::chat::{SttEvent, ToolDefinition};
use crate::json::{JsonValue, same};
use crate::mcp::{McpCall, McpRequest, McpTool, reply_id, reply_id_of, into_outcome, outcome_matches, tool_list_of, tool_list_ok, tools_read, result_or_null, present_of, is_response};
use crate::protocol::{AudioParamsResponse, ClientMessage, ListenState, ServerMessage, FRAME_DURATION_MS, SAMPLE_RATE};

verus! {

/// Request ids stay below this bound, so that every id is a JSON integer.
pub const MAX_RPC_ID: u64 = 9223372036854775807;

/// How long the idle timer waits while a turn is being processed: in effect, never.
pub const SUSPENDED_WAIT_MS: u64 = 86_400_000;

/// How soon the idle timer fires again once its deadline has already passed.
pub const OVERDUE_WAIT_MS: u64 = 100;

/// Whether the session is taking a new utterance or answering one.
#[derive(PartialEq, Eq, Structural, Clone, Copy, Debug)]
pub enum ConversationState {
    Listening,
    Processing,
}

/// Progress of tool discovery on the device.
#[derive(PartialEq, Eq, Structural, Clone, Copy, Debug)]
pub enum ToolDiscovery {
    Disabled,
    Initializing,
    Ready,
}

/// An event of the session loop.
pub enum SessionEvent {
    /// A text frame that reads as a control message.
    Control(ClientMessage),
    /// A text frame that does not read as a control message.
    Unreadable,
    /// One compressed audio frame.
    Audio(Vec<u8>),
    Ping,
    Pong,
    /// The device closed, the socket failed or the inbound stream ended.
    Closed,
    Recognized(SttEvent),
    /// The turn processor finished a turn.
    TurnFinished,
    /// The turn processor (or the standby prompt) asks to end the session.
    SleepRequested,
    /// The idle timer fired.
    IdleTimeout,
}

/// What the transport must do, in order.
pub enum Action {
    /// Queue a control message without waiting (dropped when the queue is full).
    Send(ServerMessage),
    /// Queue a pong.
    Pong,
    /// Decode the frame and feed its samples to the recognizer.
    Recognize(Vec<u8>),
    /// Hand the utterance and the current tool catalogue to the turn processor.
    StartTurn(String),
    /// Speak the standby prompt, then report `SleepRequested`.
    Standby(String),
    /// Deliver the outcome of request `id` to its waiter.
    CompleteRpc { id: u64, reply: Result<JsonValue, String> },
    /// Queue a close frame.
    Close,
}

/// State of one connection.
pub struct Session {
    pub device_id: String,
    /// Last session id the device named in `listen`.
    pub session_id: String,
    pub state: ConversationState,
    /// Text recognized since the utterance began.
    pub transcript: String,
    /// Time of the last activity other than audio, in milliseconds.
    pub last_activity: u64,
    /// The standby prompt has been started.
    pub standby: bool,
    pub discovery: ToolDiscovery,
    /// Id of the next request to the device.
    pub next_rpc_id: u64,
    /// Tools the device offers.
    pub tools: Vec<McpTool>,
    /// Ids of requests sent to the device and not yet answered.
    pub pending: Vec<u64>,
    /// A turn was handed to the turn processor and has not finished.
    pub turn_active: bool,
    /// The loop must end.
    pub closed: bool,
    pub max_idle_ms: u64,
    pub standby_prompt: String,
}

/// Whether the hello features ask for tool discovery (`features.mcp` is `true`).
pub open spec fn wants_tools(features: Option<JsonValue>) -> bool {
    match features {
        Some(f) => f.spec_get("mcp"@) == Some(JsonValue::Bool(true)),
        None => false,
    }
}

/// The message an action queues, if it queues one.
pub open spec fn sent(a: Action) -> Option<ServerMessage> {
    match a {
        Action::Send(m) => Some(m),
        _ => None,
    }
}

/// The request a message carries to the device, if it carries one.
pub open spec fn request_of(m: ServerMessage) -> Option<McpRequest> {
    match m {
        ServerMessage::Mcp { payload, .. } => Some(payload),
        _ => None,
    }
}

/// The session id a request to the device is tagged with.
pub open spec fn request_session(m: ServerMessage) -> Option<Seq<char>> {
    match m {
        ServerMessage::Mcp { session_id: Some(sid), .. } => Some(sid@),
        _ => None,
    }
}

/// Removing one element keeps the others distinct.
proof fn lemma_remove_keeps_distinct(s: Seq<u64>, k: int)
    requires
        s.no_duplicates(),
        0 <= k < s.len(),
    ensures
        s.remove(k).no_duplicates(),
        !s.remove(k).contains(s[k]),
{
    let r = s.remove(k);
    assert forall|a: int, b: int| 0 <= a < b < r.len() implies r[a] != r[b] by {
        let ia = if a < k { a } else { a + 1 };
        let ib = if b < k { b } else { b + 1 };
        assert(r[a] == s[ia]);
        assert(r[b] == s[ib]);
    }
    if r.contains(s[k]) {
        let j = choose|j: int| 0 <= j < r.len() && r[j] == s[k];
        let ij = if j < k { j } else { j + 1 };
        assert(r[j] == s[ij]);
    }
}

/// `s` after activity at `now`: the idle clock restarts and any standby ends.
pub open spec fn activity(s: Session, now: u64) -> Session {
    Session { last_activity: now, standby: false, ..s }
}

/// An utterance is finished in `o`: when a turn may start, the transcript is handed
/// over and the session is processing; otherwise nothing happens.
pub open spec fn utterance_post(o: Session, new: Session, actions: Seq<Action>) -> bool {
    &&& o.can_start_turn() ==> actions == seq![Action::StartTurn(o.transcript)]
        && new == (Session { state: ConversationState::Processing, turn_active: true, transcript: new.transcript, ..o })
        && new.transcript@.len() == 0
    &&& !o.can_start_turn() ==> actions.len() == 0 && new == o
}

/// A recognizer event in `o` (activity already noted): text grows the transcript and
/// is echoed; the end of an utterance finishes it.
pub open spec fn recognized_post(o: Session, event: SttEvent, new: Session, actions: Seq<Action>) -> bool {
    match event {
        SttEvent::Text(t) => {
            &&& new.transcript@ == o.transcript@ + t@ + " "@
            &&& actions.len() == 1
            &&& actions[0] matches Action::Send(ServerMessage::Stt { text }) && text@ == new.transcript@
            &&& new == (Session { transcript: new.transcript, ..o })
        },
        SttEvent::NoSpeech => utterance_post(o, new, actions),
    }
}

/// `listen` in `o`: the session id is kept; `start` drops the transcript and listens
/// unless a turn is in flight; `stop` finishes the utterance; `detect` does nothing.
pub open spec fn listen_post(o: Session, session_id: String, state: Option<ListenState>, new: Session, actions: Seq<Action>) -> bool {
    let p = Session { session_id: session_id, ..o };
    match state {
        Some(ListenState::Start) => {
            &&& actions.len() == 0
            &&& new.transcript@.len() == 0
            &&& new == (Session {
                state: if p.turn_active { p.state } else { ConversationState::Listening },
                transcript: new.transcript,
                ..p
            })
        },
        Some(ListenState::Stop) => utterance_post(p, new, actions),
        _ => actions.len() == 0 && new == p,
    }
}

/// `abort` in `o`: the transcript is dropped and the session listens.
pub open spec fn abort_post(o: Session, new: Session, actions: Seq<Action>) -> bool {
    &&& actions.len() == 0
    &&& new.transcript@.len() == 0
    &&& new == (Session { state: ConversationState::Listening, transcript: new.transcript, ..o })
}

/// `hello` in `o`: the greeting goes out; when the device offers tools (and an id is
/// left), `initialize` follows with the next id and no session id, and discovery starts.
pub open spec fn hello_post(o: Session, features: Option<JsonValue>, new: Session, actions: Seq<Action>) -> bool {
    &&& actions.len() >= 1
    &&& actions[0] matches Action::Send(ServerMessage::Hello { transport, audio_params: Some(p) })
        && transport@ == "websocket"@ && p.sample_rate == SAMPLE_RATE && p.frame_duration == FRAME_DURATION_MS
    &&& !wants_tools(features) || o.next_rpc_id >= MAX_RPC_ID ==> actions.len() == 1 && new == o
    &&& wants_tools(features) && o.next_rpc_id < MAX_RPC_ID ==> {
        &&& actions.len() == 2
        &&& actions[1] == Action::Send(ServerMessage::Mcp {
            payload: McpRequest { id: o.next_rpc_id, call: McpCall::Initialize },
            session_id: None,
        })
        &&& new == (Session {
            discovery: ToolDiscovery::Initializing,
            next_rpc_id: (o.next_rpc_id + 1) as u64,
            ..o
        })
    }
}

/// A tool-protocol payload in `o`. A reply to a pending request completes it; another
/// reply steps tool discovery; anything else changes nothing.
pub open spec fn mcp_post(o: Session, payload: JsonValue, new: Session, actions: Seq<Action>) -> bool {
    &&& new.last_activity == o.last_activity
    &&& new.standby == o.standby
    &&& new.state == o.state
    &&& new.turn_active == o.turn_active
    &&& forall|k: int| 0 <= k < actions.len() ==> !((#[trigger] actions[k]) is StartTurn)
    &&& o.answers_pending(payload) ==> {
        let n = reply_id(payload)->0 as u64;
        &&& actions.len() == 1
        &&& actions[0] matches Action::CompleteRpc { id, reply } && id == n && outcome_matches(payload, reply)
        &&& exists|k: int| 0 <= k < o.pending@.len() && o.pending@[k] == n && new.pending@ == o.pending@.remove(k)
        &&& new == (Session { pending: new.pending, ..o })
    }
    &&& reply_id(payload) is None ==> actions.len() == 0 && new == o
    &&& reply_id(payload) is Some && !o.answers_pending(payload) ==> {
        &&& new.pending@ == o.pending@
        &&& o.discovery == ToolDiscovery::Disabled ==> actions.len() == 0 && new == o
        &&& o.discovery == ToolDiscovery::Initializing ==> {
            &&& new.discovery == ToolDiscovery::Ready
            &&& o.next_rpc_id < MAX_RPC_ID ==> actions.len() == 1 && sent(actions[0]) is Some
                && request_of(sent(actions[0])->0) is Some && request_session(sent(actions[0])->0) == Some(o.session_id@)
                && ({
                    let req = request_of(sent(actions[0])->0)->0;
                    req.id == o.next_rpc_id && req.call is ToolsList && req.call->cursor@.len() == 0
                })
            &&& o.next_rpc_id >= MAX_RPC_ID ==> actions.len() == 0
        }
        &&& o.discovery == ToolDiscovery::Ready ==> {
            &&& actions.len() == 0
            &&& new.discovery == ToolDiscovery::Ready
            &&& new.next_rpc_id == o.next_rpc_id
            &&& !(tool_list_ok(result_or_null(payload)) && crate::mcp::listed_items(result_or_null(payload)).len() > 0)
                ==> new == o
            &&& tool_list_ok(result_or_null(payload)) && crate::mcp::listed_items(result_or_null(payload)).len() > 0
                ==> tools_read(crate::mcp::listed_items(result_or_null(payload)), new.tools@)
                    && new == (Session { tools: new.tools, ..o })
        }
    }
}

/// One event of the loop, as the handler for it does it.
pub open spec fn step_post(s: Session, event: SessionEvent, now: u64, new: Session, actions: Seq<Action>) -> bool {
    match event {
        SessionEvent::Control(m) => {
            let o = activity(s, now);
            match m {
                ClientMessage::Hello { features, .. } => hello_post(o, features, new, actions),
                ClientMessage::Listen { session_id, state, .. } => listen_post(o, session_id, state, new, actions),
                ClientMessage::Abort { .. } => abort_post(o, new, actions),
                ClientMessage::Iot { .. } => actions.len() == 0 && new == o,
                ClientMessage::Mcp { payload, .. } => mcp_post(o, payload, new, actions),
            }
        },
        SessionEvent::Unreadable => actions.len() == 0 && new == activity(s, now),
        SessionEvent::Audio(frame) => new == s && (s.state == ConversationState::Listening ==> actions
            == seq![Action::Recognize(frame)]) && (s.state == ConversationState::Processing ==> actions.len() == 0),
        SessionEvent::Ping => new == s && actions == seq![Action::Pong],
        SessionEvent::Pong => new == s && actions.len() == 0,
        SessionEvent::Closed => new == (Session { closed: true, ..s }) && actions.len() == 0,
        SessionEvent::Recognized(e) => recognized_post(activity(s, now), e, new, actions),
        SessionEvent::TurnFinished => actions.len() == 0 && new == (Session {
            state: ConversationState::Listening,
            last_activity: now,
            standby: false,
            turn_active: false,
            ..s
        }),
        SessionEvent::SleepRequested => new == (Session { closed: true, ..s }) && actions == seq![Action::Close],
        SessionEvent::IdleTimeout => new == (Session { standby: s.standby || s.idle_due(now), ..s })
            && (s.idle_due(now) ==> actions == seq![Action::Standby(s.standby_prompt)])
            && (!s.idle_due(now) ==> actions.len() == 0),
    }
}

impl Session {
    /// The bookkeeping holds: pending ids are distinct and were all handed out.
    pub open spec fn wf(&self) -> bool {
        &&& self.next_rpc_id >= 1
        &&& self.pending@.no_duplicates()
        &&& forall|k: int| 0 <= k < self.pending@.len() ==> self.pending@[k] < self.next_rpc_id
    }

    /// The idle deadline has passed while listening and no standby prompt was started.
    pub open spec fn idle_due(&self, now: u64) -> bool {
        &&& self.state == ConversationState::Listening
        &&& !self.standby
        &&& now as int >= self.last_activity as int + self.max_idle_ms as int
    }

    /// Whether a finished utterance may be handed over now: listening, no turn in
    /// flight, and some text recognized.
    pub open spec fn can_start_turn(&self) -> bool {
        &&& self.state == ConversationState::Listening
        &&& !self.turn_active
        &&& self.transcript@.len() > 0
    }

    /// A new session, listening, with no tools and nothing pending.
    pub fn new(device_id: String, max_idle_ms: u64, standby_prompt: String, now: u64) -> (r: Session)
        ensures
            r.wf(),
            r.device_id == device_id,
            r.session_id@.len() == 0,
            r.state == ConversationState::Listening,
            r.transcript@.len() == 0,
            r.last_activity == now,
            !r.standby,
            r.discovery == ToolDiscovery::Disabled,
            r.next_rpc_id == 1,
            r.tools@.len() == 0,
            r.pending@.len() == 0,
            !r.turn_active,
            !r.closed,
            r.max_idle_ms == max_idle_ms,
            r.standby_prompt == standby_prompt,
    {
        Session {
            device_id,
            session_id: String::new(),
            state: ConversationState::Listening,
            transcript: String::new(),
            last_activity: now,
            standby: false,
            discovery: ToolDiscovery::Disabled,
            next_rpc_id: 1,
            tools: Vec::new(),
            pending: Vec::new(),
            turn_active: false,
            closed: false,
            max_idle_ms,
            standby_prompt,
        }
    }

    /// The idle deadline in milliseconds, held at the clock's largest value.
    pub open spec fn idle_deadline(&self) -> int {
        let d = self.last_activity as int + self.max_idle_ms as int;
        if d > u64::MAX as int {
            u64::MAX as int
        } else {
            d
        }
    }

    /// How long the idle timer should wait from `now`: until the deadline while
    /// listening, a short retry once it has passed, and in effect forever while processing.
    pub fn idle_wait(&self, now: u64) -> (r: u64)
        ensures
            r == (if self.state == ConversationState::Processing {
                SUSPENDED_WAIT_MS as int
            } else if self.idle_deadline() > now as int {
                self.idle_deadline() - now as int
            } else {
                OVERDUE_WAIT_MS as int
            }),
    {
        if self.state == ConversationState::Processing {
            SUSPENDED_WAIT_MS
        } else {
            let deadline: u64 = self.last_activity.saturating_add(self.max_idle_ms);
            if deadline > now {
                deadline - now
            } else {
                OVERDUE_WAIT_MS
            }
        }
    }

    /// A text frame arrived: it counts as activity and ends any standby.
    fn note_activity(&mut self, now: u64)
        ensures
            *final(self) == (Session { last_activity: now, standby: false, ..*old(self) }),
    {
        self.last_activity = now;
        self.standby = false;
    }

    /// One compressed audio frame: recognized while listening, dropped while processing.
    /// Audio is no activity: the idle clock and the standby flag stay as they are.
    pub fn on_audio(&mut self, frame: Vec<u8>) -> (actions: Vec<Action>)
        ensures
            *final(self) == *old(self),
            old(self).state == ConversationState::Listening ==> actions@ == seq![Action::Recognize(frame)],
            old(self).state == ConversationState::Processing ==> actions@.len() == 0,
    {
        let mut actions: Vec<Action> = Vec::new();
        if self.state == ConversationState::Listening {
            actions.push(Action::Recognize(frame));
        }
        actions
    }

    /// The idle timer fired: the standby prompt starts once the deadline has passed
    /// while listening, unless it already did.
    pub fn on_idle_timeout(&mut self, now: u64) -> (actions: Vec<Action>)
        ensures
            *final(self) == (Session { standby: old(self).standby || old(self).idle_due(now), ..*old(self) }),
            old(self).idle_due(now) ==> actions@ == seq![Action::Standby(old(self).standby_prompt)],
            !old(self).idle_due(now) ==> actions@.len() == 0,
    {
        let mut actions: Vec<Action> = Vec::new();
        let due = self.state == ConversationState::Listening && !self.standby
            && now >= self.last_activity && now - self.last_activity >= self.max_idle_ms;
        if due {
            self.standby = true;
            actions.push(Action::Standby(self.standby_prompt.clone()));
        }
        actions
    }

    /// The turn processor is done: back to listening, with a fresh idle clock.
    pub fn on_turn_finished(&mut self, now: u64) -> (actions: Vec<Action>)
        ensures
            *final(self) == (Session {
                state: ConversationState::Listening,
                last_activity: now,
                standby: false,
                turn_active: false,
                ..*old(self)
            }),
            actions@.len() == 0,
    {
        self.state = ConversationState::Listening;
        self.last_activity = now;
        self.standby = false;
        self.turn_active = false;
        Vec::new()
    }

    /// Sleep was requested: close the connection and end the loop.
    pub fn on_sleep(&mut self) -> (actions: Vec<Action>)
        ensures
            *final(self) == (Session { closed: true, ..*old(self) }),
            actions@ == seq![Action::Close],
    {
        self.closed = true;
        let mut actions: Vec<Action> = Vec::new();
        actions.push(Action::Close);
        actions
    }

    /// Moves the transcript out and leaves it empty.
    fn take_transcript(&mut self) -> (t: String)
        ensures
            t == old(self).transcript,
            final(self).transcript@.len() == 0,
            *final(self) == (Session { transcript: final(self).transcript, ..*old(self) }),
    {
        let mut t = String::new();
        std::mem::swap(&mut t, &mut self.transcript);
        t
    }

    /// Hands the transcript to the turn processor when a turn may start.
    fn finish_utterance(&mut self) -> (actions: Vec<Action>)
        ensures
            utterance_post(*old(self), *final(self), actions@),
    {
        let mut actions: Vec<Action> = Vec::new();
        if self.state == ConversationState::Listening && !self.turn_active && !self.transcript.as_str().is_empty() {
            let text = self.take_transcript();
            self.state = ConversationState::Processing;
            self.turn_active = true;
            actions.push(Action::StartTurn(text));
        }
        actions
    }

    /// Recognized text grows the transcript, which is echoed to the device; the end of
    /// an utterance hands the transcript over. Both count as activity.
    pub fn on_recognized(&mut self, event: SttEvent, now: u64) -> (actions: Vec<Action>)
        ensures
            old(self).wf() ==> final(self).wf(),
            recognized_post(activity(*old(self), now), event, *final(self), actions@),
    {
        self.note_activity(now);
        match event {
            SttEvent::Text(t) => {
                self.transcript.append(t.as_str());
                self.transcript.append(" ");
                let mut actions: Vec<Action> = Vec::new();
                actions.push(Action::Send(ServerMessage::Stt { text: self.transcript.clone() }));
                actions
            },
            SttEvent::NoSpeech => self.finish_utterance(),
        }
    }

    /// `listen`: `start` begins a new utterance, `stop` hands the transcript over,
    /// `detect` changes nothing. The session id is remembered in every case.
    pub fn on_listen(&mut self, session_id: String, state: Option<ListenState>) -> (actions: Vec<Action>)
        ensures
            old(self).wf() ==> final(self).wf(),
            listen_post(*old(self), session_id, state, *final(self), actions@),
    {
        self.session_id = session_id;
        match state {
            Some(ListenState::Start) => {
                let _ = self.take_transcript();
                if !self.turn_active {
                    self.state = ConversationState::Listening;
                }
                Vec::new()
            },
            Some(ListenState::Stop) => self.finish_utterance(),
            _ => Vec::new(),
        }
    }

    /// `abort`: the transcript is dropped and the session listens again.
    pub fn on_abort(&mut self) -> (actions: Vec<Action>)
        ensures
            abort_post(*old(self), *final(self), actions@),
    {
        let _ = self.take_transcript();
        self.state = ConversationState::Listening;
        Vec::new()
    }

    /// Allocates the id of the next request to the device, if any is left.
    fn allocate_id(&mut self) -> (r: Option<u64>)
        ensures
            old(self).next_rpc_id < MAX_RPC_ID ==> r == Some(old(self).next_rpc_id)
                && *final(self) == (Session { next_rpc_id: (old(self).next_rpc_id + 1) as u64, ..*old(self) }),
            old(self).next_rpc_id >= MAX_RPC_ID ==> r is None && *final(self) == *old(self),
    {
        if self.next_rpc_id < MAX_RPC_ID {
            let id = self.next_rpc_id;
            self.next_rpc_id = self.next_rpc_id + 1;
            Some(id)
        } else {
            None
        }
    }

    /// A request to the device, tagged with the current session id.
    fn request_message(&self, id: u64, call: McpCall) -> (m: ServerMessage)
        ensures
            request_of(m) == Some(McpRequest { id, call }),
            request_session(m) == Some(self.session_id@),
    {
        ServerMessage::Mcp { payload: McpRequest { id, call }, session_id: Some(self.session_id.clone()) }
    }

    /// `hello`: answer with the server's greeting, and start tool discovery when the
    /// device offers tools.
    pub fn on_hello(&mut self, features: Option<JsonValue>) -> (actions: Vec<Action>)
        ensures
            old(self).wf() ==> final(self).wf(),
            hello_post(*old(self), features, *final(self), actions@),
    {
        let mut actions: Vec<Action> = Vec::new();
        let greeting = ServerMessage::Hello {
            transport: "websocket".to_owned(),
            audio_params: Some(AudioParamsResponse { sample_rate: SAMPLE_RATE, frame_duration: FRAME_DURATION_MS }),
        };
        actions.push(Action::Send(greeting));
        let wants = match &features {
            Some(f) => match f.get("mcp") {
                Some(v) => match v.as_bool() {
                    Some(b) => b,
                    None => false,
                },
                None => false,
            },
            None => false,
        };
        if wants {
            if let Some(id) = self.allocate_id() {
                self.discovery = ToolDiscovery::Initializing;
                let init = ServerMessage::Mcp { payload: McpRequest { id, call: McpCall::Initialize }, session_id: None };
                actions.push(Action::Send(init));
            }
        }
        actions
    }

    /// Position of `id` among the pending requests.
    fn find_pending(&self, id: u64) -> (r: Option<usize>)
        ensures
            r matches Some(k) ==> k < self.pending@.len() && self.pending@[k as int] == id,
            r is None ==> !self.pending@.contains(id),
    {
        let mut k: usize = 0;
        while k < self.pending.len()
            invariant
                k <= self.pending@.len(),
                forall|j: int| 0 <= j < k ==> self.pending@[j] != id,
            decreases self.pending.len() - k,
        {
            if self.pending[k] == id {
                return Some(k);
            }
            k = k + 1;
        }
        None
    }

    /// Whether a payload answers a pending request.
    pub open spec fn answers_pending(&self, payload: JsonValue) -> bool {
        reply_id(payload) matches Some(n) && n >= 0 && self.pending@.contains(n as u64)
    }

    /// A tool-protocol payload from the device. A reply to a pending request goes to
    /// its waiter and leaves the pending set. Another reply is a step of tool
    /// discovery: the answer to `initialize` triggers `tools/list`, the answer to
    /// `tools/list` fills the catalogue. Notifications change nothing.
    pub fn on_mcp(&mut self, payload: JsonValue) -> (actions: Vec<Action>)
        requires
            old(self).wf(),
        ensures
            final(self).wf(),
            mcp_post(*old(self), payload, *final(self), actions@),
    {
        let mut actions: Vec<Action> = Vec::new();
        let n = match reply_id_of(&payload) {
            Some(n) => n,
            None => {
                return actions;
            },
        };
        if n >= 0 {
            if let Some(k) = self.find_pending(n as u64) {
                let ghost before = self.pending@;
                let id = self.pending.remove(k);
                proof {
                    assert forall|j: int| 0 <= j < self.pending@.len() implies self.pending@[j] < self.next_rpc_id by {
                        if j < k {
                            assert(self.pending@[j] == before[j]);
                        } else {
                            assert(self.pending@[j] == before[j + 1]);
                        }
                    }
                    lemma_remove_keeps_distinct(before, k as int);
                }
                actions.push(Action::CompleteRpc { id, reply: into_outcome(payload) });
                return actions;
            }
        }
        if self.discovery == ToolDiscovery::Initializing {
            self.discovery = ToolDiscovery::Ready;
            if let Some(id) = self.allocate_id() {
                let cursor = String::new();
                actions.push(Action::Send(self.request_message(id, McpCall::ToolsList { cursor })));
            }
        } else if self.discovery == ToolDiscovery::Ready {
            let listed = match present_of(&payload, "result") {
                Some(r) => tool_list_of(r),
                None => tool_list_of(&JsonValue::Null),
            };
            if let Some(tools) = listed {
                if tools.len() > 0 {
                    self.tools = tools;
                }
            }
        }
        actions
    }

    /// Issues a request for the turn processor. The transport queues the message
    /// without waiting and then reports with `rpc_enqueued` whether it was queued;
    /// a request that could not be queued fails at once and never becomes pending.
    pub fn issue_rpc(&mut self, call: McpCall) -> (r: Option<ServerMessage>)
        ensures
            old(self).next_rpc_id < MAX_RPC_ID ==> {
                &&& r is Some
                &&& request_of(r->0) == Some(McpRequest { id: old(self).next_rpc_id, call })
                &&& request_session(r->0) == Some(old(self).session_id@)
                &&& *final(self) == (Session { next_rpc_id: (old(self).next_rpc_id + 1) as u64, ..*old(self) })
            },
            old(self).next_rpc_id >= MAX_RPC_ID ==> r is None && *final(self) == *old(self),
            old(self).wf() ==> final(self).wf(),
    {
        match self.allocate_id() {
            Some(id) => Some(self.request_message(id, call)),
            None => None,
        }
    }

    /// Records that request `id` was queued and now awaits its reply. Ids that were
    /// never handed out, or are already pending, are ignored.
    pub fn rpc_enqueued(&mut self, id: u64)
        requires
            old(self).wf(),
        ensures
            final(self).wf(),
            id < old(self).next_rpc_id && !old(self).pending@.contains(id)
                ==> final(self).pending@ == old(self).pending@.push(id),
            !(id < old(self).next_rpc_id && !old(self).pending@.contains(id)) ==> final(self).pending@ == old(self).pending@,
            *final(self) == (Session { pending: final(self).pending, ..*old(self) }),
    {
        if id < self.next_rpc_id && self.find_pending(id).is_none() {
            let ghost before = self.pending@;
            self.pending.push(id);
            proof {
                assert forall|a: int, b: int| 0 <= a < b < self.pending@.len() implies self.pending@[a] != self.pending@[b] by {
                    if b == before.len() {
                        assert(before.contains(before[a]));
                    }
                }
            }
        }
    }

    /// Ends the session: every request still pending is handed back, each once, so
    /// that its waiter can be failed.
    pub fn teardown(&mut self) -> (ids: Vec<u64>)
        requires
            old(self).wf(),
        ensures
            ids@ == old(self).pending@,
            ids@.no_duplicates(),
            final(self).pending@.len() == 0,
            final(self).closed,
            final(self).wf(),
    {
        let mut ids: Vec<u64> = Vec::new();
        std::mem::swap(&mut ids, &mut self.pending);
        self.closed = true;
        ids
    }

    /// The tool catalogue as the language model is offered it.
    pub fn tool_definitions(&self) -> (r: Vec<ToolDefinition>)
        ensures
            r@.len() == self.tools@.len(),
            forall|k: int| 0 <= k < r@.len() ==> (#[trigger] r@[k]).name@ == self.tools@[k].name@
                && r@[k].description@ == self.tools@[k].description@
                && same(self.tools@[k].input_schema, r@[k].parameters),
    {
        let mut r: Vec<ToolDefinition> = Vec::new();
        let mut i: usize = 0;
        while i < self.tools.len()
            invariant
                i <= self.tools@.len(),
                r@.len() == i,
                forall|k: int| 0 <= k < i ==> (#[trigger] r@[k]).name@ == self.tools@[k].name@
                    && r@[k].description@ == self.tools@[k].description@
                    && same(self.tools@[k].input_schema, r@[k].parameters),
            decreases self.tools.len() - i,
        {
            let t = &self.tools[i];
            r.push(ToolDefinition {
                name: t.name.clone(),
                description: t.description.clone(),
                parameters: t.input_schema.deep_copy(),
            });
            i = i + 1;
        }
        r
    }

    /// One event of the loop: dispatches to the handler for it. Text frames count as
    /// activity; audio does not.
    pub fn step(&mut self, event: SessionEvent, now: u64) -> (actions: Vec<Action>)
        requires
            old(self).wf(),
        ensures
            final(self).wf(),
            step_post(*old(self), event, now, *final(self), actions@),
            (forall|k: int| 0 <= k < actions@.len() ==> (#[trigger] actions@[k]) is StartTurn ==> {
                &&& !old(self).turn_active
                &&& final(self).turn_active
                &&& final(self).state == ConversationState::Processing
            }),
    {
        match event {
            SessionEvent::Control(message) => {
                self.note_activity(now);
                match message {
                    ClientMessage::Hello { features, .. } => self.on_hello(features),
                    ClientMessage::Listen { session_id, state, .. } => self.on_listen(session_id, state),
                    ClientMessage::Abort { .. } => self.on_abort(),
                    ClientMessage::Iot { .. } => Vec::new(),
                    ClientMessage::Mcp { payload, .. } => self.on_mcp(payload),
                }
            },
            SessionEvent::Unreadable => {
                self.note_activity(now);
                Vec::new()
            },
            SessionEvent::Audio(frame) => self.on_audio(frame),
            SessionEvent::Ping => {
                let mut actions: Vec<Action> = Vec::new();
                actions.push(Action::Pong);
                actions
            },
            SessionEvent::Pong => Vec::new(),
            SessionEvent::Closed => {
                self.closed = true;
                Vec::new()
            },
            SessionEvent::Recognized(e) => self.on_recognized(e, now),
            SessionEvent::TurnFinished => self.on_turn_finished(now),
            SessionEvent::SleepRequested => self.on_sleep(),
            SessionEvent::IdleTimeout => self.on_idle_timeout(now),
        }
    }
}

/// Single flight: while a turn is in flight no utterance can be handed over, so at most
/// one turn is processed at any time; and audio that arrives while processing never
/// reaches the recognizer.
pub proof fn single_flight(s: Session)
    ensures
        s.turn_active ==> !s.can_start_turn(),
        s.state == ConversationState::Processing ==> !s.can_start_turn(),
{
}

/// Request correlation: when a reply completes pending request `pending[k]`, that id
/// leaves the pending set and every other id stays pending, still distinct. A second
/// reply with the same id therefore completes nothing, and teardown, which hands back
/// exactly the pending ids, does not fail it again.
pub proof fn reply_completes_once(pending: Seq<u64>, k: int)
    requires
        pending.no_duplicates(),
        0 <= k < pending.len(),
    ensures
        !pending.remove(k).contains(pending[k]),
        pending.remove(k).no_duplicates(),
        forall|j: int| 0 <= j < pending.len() && j != k ==> pending.remove(k).contains(#[trigger] pending[j]),
{
    lemma_remove_keeps_distinct(pending, k);
    assert forall|j: int| 0 <= j < pending.len() && j != k implies pending.remove(k).contains(#[trigger] pending[j]) by {
        if j < k {
            assert(pending.remove(k)[j] == pending[j]);
        } else {
            assert(pending.remove(k)[j - 1] == pending[j]);
        }
    }
}

/// Idle close: once the idle timer has started the standby prompt, a later firing of
/// the timer starts nothing more unless activity intervened (audio is no activity and
/// leaves the session as it is).
pub proof fn standby_prompt_once(before: Session, after: Session, now: u64, later: u64)
    requires
        before.idle_due(now),
        after == (Session { standby: before.standby || before.idle_due(now), ..before }),
    ensures
        after.standby,
        !after.idle_due(later),
{
}

} // verus!
