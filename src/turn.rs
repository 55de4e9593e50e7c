//! The turn processor: one user utterance, the dialog with the model, and what is
//! sent back.
//!
//! The transport drives a turn: it asks the model while `next_round` allows, feeds
//! tool calls and their replies back in, and sends the plan of a text reply in order,
//! pacing its audio with `crate::pacing`.
use vstd::prelude::*;
use crate::chat::{Message, ToolCall};
use crate::json::JsonValue;
use crate::mcp::McpCall;
use crate::protocol::{Emotion, ServerMessage, TtsState};
use crate::text::{TextReply, trimmed, trim};

verus! {

/// Most requests to the model in one turn.
pub const MAX_ROUNDS: u32 = 5;

/// One utterance in progress.
pub struct Turn {
    /// The conversation sent to the model: recent history, the utterance, and the
    /// tool exchanges of this turn.
    pub messages: Vec<Message>,
    /// Requests made to the model so far.
    pub rounds: u32,
}

/// What goes to the device, in order.
pub enum Outbound {
    Message(ServerMessage),
    /// One compressed audio frame, paced by its index among the audio of the plan.
    Audio(Vec<u8>),
}

/// The text of a tool reply: the texts of its `content` items, one after another.
pub open spec fn content_text(items: Seq<JsonValue>) -> Seq<char>
    decreases items.len(),
{
    if items.len() == 0 {
        Seq::empty()
    } else {
        let head = match items[0].spec_get("text"@) {
            Some(t) => match t.spec_as_str() {
                Some(s) => s,
                None => Seq::empty(),
            },
            None => Seq::empty(),
        };
        head + content_text(items.drop_first())
    }
}

/// What the model is told of a tool reply: the texts of a `content` array; for an
/// error, `Error: ` and its text; otherwise nothing.
pub open spec fn tool_output_text(reply: Result<JsonValue, String>) -> Seq<char> {
    match reply {
        Ok(v) => match v.spec_get("content"@) {
            Some(JsonValue::Array(items)) => content_text(items@),
            _ => match v.spec_get("error"@) {
                Some(JsonValue::Str(e)) => "Error: "@ + e@,
                _ => Seq::empty(),
            },
        },
        Err(e) => "Error: "@ + e@,
    }
}

/// The text a tool reply is turned into for the model.
pub fn tool_output(reply: &Result<JsonValue, String>) -> (r: String)
    ensures
        r@ == tool_output_text(*reply),
{
    match reply {
        Ok(v) => {
            if let Some(JsonValue::Array(items)) = v.get("content") {
                let mut out = String::new();
                let mut i: usize = 0;
                assert(items@.subrange(0, items@.len() as int) == items@);
                while i < items.len()
                    invariant
                        i <= items@.len(),
                        content_text(items@) == out@ + content_text(items@.subrange(i as int, items@.len() as int)),
                    decreases items.len() - i,
                {
                    let ghost rest = items@.subrange(i as int, items@.len() as int);
                    assert(rest.drop_first() == items@.subrange(i + 1, items@.len() as int));
                    assert(rest[0] == items@[i as int]);
                    if let Some(t) = items[i].get("text") {
                        if let Some(s) = t.as_str() {
                            out.append(s);
                        }
                    }
                    i = i + 1;
                }
                return out;
            }
            match v.get("error") {
                Some(JsonValue::Str(e)) => {
                    let mut out = "Error: ".to_owned();
                    out.append(e.as_str());
                    out
                },
                _ => String::new(),
            }
        },
        Err(e) => {
            let mut out = "Error: ".to_owned();
            out.append(e.as_str());
            out
        },
    }
}

impl Turn {
    /// Starts a turn on recent history; `None` when the utterance is blank.
    pub fn begin(history: Vec<Message>, text: &str) -> (r: Option<Turn>)
        ensures
            r is None <==> trimmed(text@).len() == 0,
            r matches Some(t) ==> {
                &&& t.rounds == 0
                &&& t.messages@.len() == history@.len() + 1
                &&& t.messages@.subrange(0, history@.len() as int) == history@
                &&& t.messages@.last().role@ == "user"@
                &&& t.messages@.last().content@ == text@
                &&& t.messages@.last().tool_calls@.len() == 0
                &&& t.messages@.last().tool_call_id is None
            },
    {
        let blank = trim(text);
        if blank.as_str().is_empty() {
            return None;
        }
        let mut messages = history;
        let ghost before = messages@;
        messages.push(Message::plain("user", text));
        proof {
            reveal_strlit("user");
            assert(messages@.subrange(0, before.len() as int) == before);
        }
        Some(Turn { messages, rounds: 0 })
    }

    /// Counts a request to the model; `false` once the turn has made `MAX_ROUNDS`,
    /// which ends it without further output.
    pub fn next_round(&mut self) -> (r: bool)
        ensures
            r == (old(self).rounds < MAX_ROUNDS),
            r ==> final(self).rounds == old(self).rounds + 1,
            !r ==> final(self).rounds == old(self).rounds,
            final(self).messages == old(self).messages,
    {
        if self.rounds < MAX_ROUNDS {
            self.rounds = self.rounds + 1;
            true
        } else {
            false
        }
    }

    /// The model asked for tools: its request joins the conversation and one
    /// `tools/call` per invocation is returned, in order, with the invocation's id.
    pub fn on_tool_calls(&mut self, calls: Vec<ToolCall>) -> (r: Vec<(String, McpCall)>)
        ensures
            final(self).rounds == old(self).rounds,
            final(self).messages@.len() == old(self).messages@.len() + 1,
            final(self).messages@.subrange(0, old(self).messages@.len() as int) == old(self).messages@,
            final(self).messages@.last().role@ == "assistant"@,
            final(self).messages@.last().content@.len() == 0,
            final(self).messages@.last().tool_calls == calls,
            final(self).messages@.last().tool_call_id is None,
            r@.len() == calls@.len(),
            forall|k: int| 0 <= k < r@.len() ==> {
                &&& (#[trigger] r@[k]).0@ == calls@[k].id@
                &&& r@[k].1 matches McpCall::ToolsCall { name, arguments }
                    && name@ == calls@[k].function.name@ && arguments@ == calls@[k].function.arguments@
            },
    {
        let mut requests: Vec<(String, McpCall)> = Vec::new();
        let mut i: usize = 0;
        while i < calls.len()
            invariant
                i <= calls@.len(),
                requests@.len() == i,
                forall|k: int| 0 <= k < i ==> {
                    &&& (#[trigger] requests@[k]).0@ == calls@[k].id@
                    &&& requests@[k].1 matches McpCall::ToolsCall { name, arguments }
                        && name@ == calls@[k].function.name@ && arguments@ == calls@[k].function.arguments@
                },
            decreases calls.len() - i,
        {
            let c = &calls[i];
            requests.push((c.id.clone(), McpCall::ToolsCall {
                name: c.function.name.clone(),
                arguments: c.function.arguments.clone(),
            }));
            i = i + 1;
        }
        let ghost before = self.messages@;
        let request = Message {
            role: "assistant".to_owned(),
            content: String::new(),
            tool_calls: calls,
            tool_call_id: None,
        };
        self.messages.push(request);
        proof {
            reveal_strlit("assistant");
            assert(self.messages@.subrange(0, before.len() as int) == before);
        }
        requests
    }

    /// A tool replied: its text joins the conversation as a `tool` message.
    pub fn on_tool_reply(&mut self, call_id: String, reply: &Result<JsonValue, String>)
        ensures
            final(self).rounds == old(self).rounds,
            final(self).messages@.len() == old(self).messages@.len() + 1,
            final(self).messages@.subrange(0, old(self).messages@.len() as int) == old(self).messages@,
            final(self).messages@.last().role@ == "tool"@,
            final(self).messages@.last().content@ == tool_output_text(*reply),
            final(self).messages@.last().tool_calls@.len() == 0,
            final(self).messages@.last().tool_call_id == Some(call_id),
    {
        let ghost before = self.messages@;
        let answer = Message {
            role: "tool".to_owned(),
            content: tool_output(reply),
            tool_calls: Vec::new(),
            tool_call_id: Some(call_id),
        };
        self.messages.push(answer);
        proof {
            reveal_strlit("tool");
            assert(self.messages@.subrange(0, before.len() as int) == before);
        }
    }
}

/// The emotion shown with a reply: the inferred one, `happy` when none was found.
pub open spec fn shown_emotion(e: Option<Emotion>) -> Emotion {
    match e {
        Some(x) => x,
        None => Emotion::Happy,
    }
}

/// Whether `plan[from..from + frames.len()]` is the audio of `frames`, in order.
pub open spec fn audio_run(plan: Seq<Outbound>, from: int, frames: Seq<Vec<u8>>) -> bool {
    forall|k: int| 0 <= k < frames.len() ==> plan[from + k] == Outbound::Audio(#[trigger] frames[k])
}

/// Moves the frames onto the end of a plan.
fn append_audio(plan: &mut Vec<Outbound>, frames: Vec<Vec<u8>>)
    ensures
        final(plan)@.len() == old(plan)@.len() + frames@.len(),
        final(plan)@.subrange(0, old(plan)@.len() as int) == old(plan)@,
        audio_run(final(plan)@, old(plan)@.len() as int, frames@),
{
    let ghost start = plan@;
    let ghost all = frames@;
    let mut frames = frames;
    let mut taken: Vec<Vec<u8>> = Vec::new();
    // frames are taken from the back and put back in order below
    while frames.len() > 0
        invariant
            frames@ + taken@.reverse() == all,
        decreases frames.len(),
    {
        let f = frames.pop().unwrap();
        let ghost t = taken@;
        taken.push(f);
        assert(taken@.reverse() == seq![f] + t.reverse());
        assert(frames@ + taken@.reverse() == all);
    }
    assert(taken@.reverse() == all);
    while taken.len() > 0
        invariant
            plan@.len() + taken@.len() == start.len() + all.len(),
            plan@.subrange(0, start.len() as int) == start,
            plan@.len() >= start.len(),
            all == plan@.subrange(start.len() as int, plan@.len() as int).map_values(|o: Outbound| o->Audio_0) + taken@.reverse(),
            forall|k: int| start.len() <= k < plan@.len() ==> (#[trigger] plan@[k]) is Audio,
        decreases taken.len(),
    {
        let f = taken.pop().unwrap();
        let ghost before = plan@;
        plan.push(Outbound::Audio(f));
        assert(plan@.subrange(start.len() as int, plan@.len() as int).map_values(|o: Outbound| o->Audio_0)
            == before.subrange(start.len() as int, before.len() as int).map_values(|o: Outbound| o->Audio_0).push(f));
        assert(plan@.subrange(0, start.len() as int) == before.subrange(0, start.len() as int));
    }
    assert forall|k: int| 0 <= k < all.len() implies plan@[start.len() + k] == Outbound::Audio(#[trigger] all[k]) by {
        assert(plan@.subrange(start.len() as int, plan@.len() as int).map_values(|o: Outbound| o->Audio_0)[k] == all[k]);
        assert(plan@[start.len() + k] is Audio);
    }
}

/// Whether `plan` opens a spoken reply of `text` with `emotion`: the text with its
/// emotion, the start of speech, the sentence.
pub open spec fn reply_opening_ok(plan: Seq<Outbound>, text: Seq<char>, emotion: Option<Emotion>) -> bool {
    &&& plan.len() == 3
    &&& plan[0] matches Outbound::Message(ServerMessage::Llm { emotion: Some(e), text: Some(t) })
        && e == shown_emotion(emotion) && t@ == text
    &&& plan[1] == Outbound::Message(ServerMessage::Tts { state: TtsState::Start, text: None })
    &&& plan[2] matches Outbound::Message(ServerMessage::Tts { state: TtsState::SentenceStart, text: Some(t) })
        && t@ == text
}

/// Whether `plan` closes spoken output: the frames in order, then the end of speech.
pub open spec fn closing_ok(plan: Seq<Outbound>, from: int, frames: Seq<Vec<u8>>) -> bool {
    &&& plan.len() == from + frames.len() + 1
    &&& audio_run(plan, from, frames)
    &&& plan[from + frames.len()] == Outbound::Message(ServerMessage::Tts { state: TtsState::Stop, text: None })
}

/// What a text reply sends before its speech is synthesized; nothing for an empty text.
pub fn reply_opening(reply: &TextReply) -> (plan: Vec<Outbound>)
    ensures
        reply.text@.len() == 0 ==> plan@.len() == 0,
        reply.text@.len() > 0 ==> reply_opening_ok(plan@, reply.text@, reply.emotion),
{
    let mut plan: Vec<Outbound> = Vec::new();
    if reply.text.as_str().is_empty() {
        return plan;
    }
    let emotion = match reply.emotion {
        Some(e) => e,
        None => Emotion::Happy,
    };
    plan.push(Outbound::Message(ServerMessage::Llm { emotion: Some(emotion), text: Some(reply.text.clone()) }));
    plan.push(Outbound::Message(ServerMessage::Tts { state: TtsState::Start, text: None }));
    plan.push(Outbound::Message(ServerMessage::Tts { state: TtsState::SentenceStart, text: Some(reply.text.clone()) }));
    plan
}

/// What the standby prompt sends before its speech is synthesized.
pub fn standby_opening(prompt: &str) -> (plan: Vec<Outbound>)
    ensures
        plan@.len() == 2,
        plan@[0] == Outbound::Message(ServerMessage::Tts { state: TtsState::Start, text: None }),
        plan@[1] matches Outbound::Message(ServerMessage::Tts { state: TtsState::SentenceStart, text: Some(t) })
            && t@ == prompt@,
{
    let mut plan: Vec<Outbound> = Vec::new();
    plan.push(Outbound::Message(ServerMessage::Tts { state: TtsState::Start, text: None }));
    plan.push(Outbound::Message(ServerMessage::Tts { state: TtsState::SentenceStart, text: Some(prompt.to_owned()) }));
    plan
}

/// What follows synthesis: the frames, then the end of speech.
pub fn speech_closing(frames: Vec<Vec<u8>>) -> (plan: Vec<Outbound>)
    ensures
        closing_ok(plan@, 0, frames@),
{
    let mut plan: Vec<Outbound> = Vec::new();
    let ghost fs = frames@;
    append_audio(&mut plan, frames);
    plan.push(Outbound::Message(ServerMessage::Tts { state: TtsState::Stop, text: None }));
    assert(audio_run(plan@, 0, fs)) by {
        assert forall|k: int| 0 <= k < fs.len() implies plan@[0 + k] == Outbound::Audio(#[trigger] fs[k]) by {
        }
    }
    plan
}

/// The frames a synthesis gave; none when it failed (the reply still ends its speech).
pub fn spoken_frames(result: Result<Vec<Vec<u8>>, String>) -> (r: Vec<Vec<u8>>)
    ensures
        result matches Ok(f) ==> r@ == f@,
        result is Err ==> r@.len() == 0,
{
    match result {
        Ok(f) => f,
        Err(_) => Vec::new(),
    }
}

/// The history a text reply writes: the user's text, then the reply, or nothing when
/// the reply is empty.
pub fn history_entries(user_text: &str, reply: &TextReply) -> (r: Vec<(String, String)>)
    ensures
        reply.text@.len() == 0 ==> r@.len() == 0,
        reply.text@.len() > 0 ==> r@.len() == 2 && r@[0].0@ == "user"@ && r@[0].1@ == user_text@
            && r@[1].0@ == "assistant"@ && r@[1].1@ == reply.text@,
{
    let mut r: Vec<(String, String)> = Vec::new();
    if !reply.text.as_str().is_empty() {
        r.push(("user".to_owned(), user_text.to_owned()));
        r.push(("assistant".to_owned(), reply.text.clone()));
    }
    r
}

/// Appends a closing to an opening.
fn joined_plan(opening: Vec<Outbound>, closing: Vec<Outbound>) -> (plan: Vec<Outbound>)
    ensures
        plan@ == opening@ + closing@,
{
    let mut plan = opening;
    let mut rest = closing;
    plan.append(&mut rest);
    plan
}

/// What a text reply sends, in order: the text with its emotion, the start of
/// speech, the sentence, its audio frames, the end of speech. A reply whose text is
/// empty sends nothing.
pub fn reply_output(reply: TextReply, frames: Vec<Vec<u8>>) -> (plan: Vec<Outbound>)
    ensures
        reply.text@.len() == 0 ==> plan@.len() == 0,
        reply.text@.len() > 0 ==> reply_opening_ok(plan@.subrange(0, 3), reply.text@, reply.emotion)
            && closing_ok(plan@, 3, frames@),
{
    let opening = reply_opening(&reply);
    if opening.len() == 0 {
        return opening;
    }
    let ghost fs = frames@;
    let closing = speech_closing(frames);
    let plan = joined_plan(opening, closing);
    proof {
        let o = plan@.subrange(0, 3);
        assert(o =~= opening@);
        assert forall|k: int| 0 <= k < fs.len() implies plan@[3 + k] == Outbound::Audio(#[trigger] fs[k]) by {
            assert(plan@[3 + k] == closing@[0 + k]);
        }
        assert(plan@[3 + fs.len() as int] == closing@[fs.len() as int]);
    }
    plan
}

/// What the standby prompt sends, in order: the start of speech, the prompt, its
/// audio frames, the end of speech.
pub fn standby_output(prompt: String, frames: Vec<Vec<u8>>) -> (plan: Vec<Outbound>)
    ensures
        plan@[0] == Outbound::Message(ServerMessage::Tts { state: TtsState::Start, text: None }),
        plan@[1] matches Outbound::Message(ServerMessage::Tts { state: TtsState::SentenceStart, text: Some(t) })
            && t@ == prompt@,
        closing_ok(plan@, 2, frames@),
{
    let opening = standby_opening(prompt.as_str());
    let ghost fs = frames@;
    let closing = speech_closing(frames);
    let plan = joined_plan(opening, closing);
    proof {
        assert(plan@[0] == opening@[0] && plan@[1] == opening@[1]);
        assert forall|k: int| 0 <= k < fs.len() implies plan@[2 + k] == Outbound::Audio(#[trigger] fs[k]) by {
            assert(plan@[2 + k] == closing@[0 + k]);
        }
        assert(plan@[2 + fs.len() as int] == closing@[fs.len() as int]);
    }
    plan
}

} // verus!
