//! Reading language-model replies, and the fixed parts of the requests.
use vstd::prelude::*;
use crate::chat::{ChatResponse, Message, ToolCall, ToolDefinition, ToolFunction};
use crate::json::{JsonValue, lemma_member_at, lemma_member_absent, same};
use crate::mcp::str_member;

verus! {

/// Appended to every system instruction: how the model asks the session to end.
pub const TECH_INSTRUCTION: &'static str = "If the user indicates they want you to sleep, stop, or shut up, please politely reply that you are taking a break and append the [SLEEP] tag to the end of your response.";

/// The system instruction sent to the model: the configured one, a space, and
/// `TECH_INSTRUCTION`; or `TECH_INSTRUCTION` alone.
pub fn merged_instruction(user: Option<&str>) -> (r: String)
    ensures
        user matches Some(u) ==> r@ == u@ + " "@ + TECH_INSTRUCTION@,
        user is None ==> r@ == TECH_INSTRUCTION@,
{
    match user {
        Some(u) => {
            let mut r = u.to_owned();
            r.append(" ");
            r.append(TECH_INSTRUCTION);
            r
        },
        None => TECH_INSTRUCTION.to_owned(),
    }
}

/// `s` without trailing `/`.
pub open spec fn without_trailing_slashes(s: Seq<char>) -> Seq<char>
    decreases s.len(),
{
    if s.len() > 0 && s.last() == '/' {
        without_trailing_slashes(s.drop_last())
    } else {
        s
    }
}

/// A base address without trailing `/`, so paths can be appended.
pub fn trimmed_base_url(url: &str) -> (r: String)
    ensures
        r@ == without_trailing_slashes(url@),
{
    let cs = crate::text::chars_of(url);
    let mut j: usize = cs.len();
    assert(cs@.subrange(0, cs@.len() as int) == cs@);
    while j > 0 && cs[j - 1] == '/'
        invariant
            j <= cs@.len(),
            without_trailing_slashes(cs@) == without_trailing_slashes(cs@.subrange(0, j as int)),
        decreases j,
    {
        assert(cs@.subrange(0, j as int).drop_last() == cs@.subrange(0, j - 1));
        j = j - 1;
    }
    crate::text::string_of(&cs, 0, j)
}

/// `choices[0].message` of a chat-completion reply.
pub open spec fn first_message(reply: JsonValue) -> Option<JsonValue> {
    match reply.spec_get("choices"@) {
        Some(JsonValue::Array(cs)) if cs@.len() > 0 => cs@[0].spec_get("message"@),
        _ => None,
    }
}

/// Member `key` of an optional value.
pub open spec fn opt_get(v: Option<JsonValue>, key: Seq<char>) -> Option<JsonValue> {
    match v {
        Some(x) => x.spec_get(key),
        None => None,
    }
}

/// Whether a tool call of a reply is complete: an `id` and a `function` with a
/// `name` and `arguments` text.
pub open spec fn call_ok(v: JsonValue) -> bool {
    &&& str_member(v, "id"@) is Some
    &&& v.spec_get("function"@) matches Some(f) && str_member(f, "name"@) is Some && str_member(f, "arguments"@) is Some
}

/// Whether a reply's tool call was read faithfully into `c`.
pub open spec fn read_call(v: JsonValue, c: ToolCall) -> bool {
    &&& Some(c.id@) == str_member(v, "id"@)
    &&& c.type_@ == (match str_member(v, "type"@) {
        Some(t) => t,
        None => "function"@,
    })
    &&& v.spec_get("function"@) matches Some(f) && Some(c.function.name@) == str_member(f, "name"@)
        && Some(c.function.arguments@) == str_member(f, "arguments"@)
}

/// Reads one tool call of a reply.
fn call_of(v: &JsonValue) -> (r: Option<ToolCall>)
    ensures
        r is Some <==> call_ok(*v),
        r matches Some(c) ==> read_call(*v, c),
{
    proof {
        reveal_strlit("function");
    }
    let id = match v.get("id") {
        Some(x) => x.as_str(),
        None => None,
    };
    let type_: String = match v.get("type") {
        Some(x) => match x.as_str() {
            Some(t) => t.to_owned(),
            None => "function".to_owned(),
        },
        None => "function".to_owned(),
    };
    let f = match v.get("function") {
        Some(f) => f,
        None => {
            return None;
        },
    };
    let name = match f.get("name") {
        Some(x) => x.as_str(),
        None => None,
    };
    let arguments = match f.get("arguments") {
        Some(x) => x.as_str(),
        None => None,
    };
    match (id, name, arguments) {
        (Some(i), Some(n), Some(a)) => Some(ToolCall {
            id: i.to_owned(),
            type_,
            function: ToolFunction { name: n.to_owned(), arguments: a.to_owned() },
        }),
        _ => None,
    }
}

/// The tool calls a reply's message carries, if they are given as an array.
pub open spec fn listed_calls(reply: JsonValue) -> Option<Seq<JsonValue>> {
    match opt_get(first_message(reply), "tool_calls"@) {
        Some(JsonValue::Array(items)) => Some(items@),
        _ => None,
    }
}

/// Whether a reply lists a tool call that is incomplete.
pub open spec fn has_bad_call(reply: JsonValue) -> bool {
    match listed_calls(reply) {
        Some(items) => exists|k: int| 0 <= k < items.len() && !call_ok(#[trigger] items[k]),
        None => false,
    }
}

/// The text of a reply's message; empty when there is none.
pub open spec fn reply_text(reply: JsonValue) -> Seq<char> {
    match opt_get(first_message(reply), "content"@) {
        Some(JsonValue::Str(t)) => t@,
        _ => Seq::empty(),
    }
}

/// Reads a chat-completion reply: its tool calls when it lists any, else its text.
/// A listed tool call that is incomplete makes the reply unreadable.
pub fn chat_completion_reply(reply: &JsonValue) -> (r: Result<ChatResponse, String>)
    ensures
        r is Err <==> has_bad_call(*reply),
        r matches Ok(ChatResponse::ToolCall(calls)) ==> listed_calls(*reply) matches Some(items)
            && calls@.len() == items.len() && calls@.len() > 0
            && forall|k: int| 0 <= k < items.len() ==> read_call(items[k], #[trigger] calls@[k]),
        r matches Ok(ChatResponse::Text(t)) ==> t@ == reply_text(*reply)
            && (listed_calls(*reply) matches Some(items) ==> items.len() == 0),
{
    let message: Option<&JsonValue> = match reply.get("choices") {
        Some(JsonValue::Array(cs)) => {
            if cs.len() > 0 {
                cs[0].get("message")
            } else {
                None
            }
        },
        _ => None,
    };
    let listed: Option<&Vec<JsonValue>> = match message {
        Some(m) => match m.get("tool_calls") {
            Some(JsonValue::Array(items)) => Some(items),
            _ => None,
        },
        None => None,
    };
    if let Some(items) = listed {
        let mut calls: Vec<ToolCall> = Vec::new();
        let mut i: usize = 0;
        while i < items.len()
            invariant
                listed_calls(*reply) == Some(items@),
                i <= items@.len(),
                calls@.len() == i,
                forall|k: int| 0 <= k < i ==> call_ok(#[trigger] items@[k]),
                forall|k: int| 0 <= k < i ==> read_call(items@[k], #[trigger] calls@[k]),
            decreases items.len() - i,
        {
            match call_of(&items[i]) {
                Some(c) => calls.push(c),
                None => {
                    assert(!call_ok(items@[i as int]));
                    assert(has_bad_call(*reply));
                    return Err("Invalid tool call in model reply".to_owned());
                },
            }
            i = i + 1;
        }
        if calls.len() > 0 {
            return Ok(ChatResponse::ToolCall(calls));
        }
    }
    let text: String = match message {
        Some(m) => match m.get("content") {
            Some(JsonValue::Str(t)) => t.clone(),
            _ => String::new(),
        },
        None => String::new(),
    };
    Ok(ChatResponse::Text(text))
}

/// Reads a reply that must carry text (`choices[0].message.content`).
pub fn text_completion_reply(reply: &JsonValue) -> (r: Result<String, String>)
    ensures
        r is Ok <==> opt_get(first_message(*reply), "content"@) matches Some(JsonValue::Str(_)),
        r matches Ok(t) ==> t@ == reply_text(*reply),
{
    let message: Option<&JsonValue> = match reply.get("choices") {
        Some(JsonValue::Array(cs)) => {
            if cs.len() > 0 {
                cs[0].get("message")
            } else {
                None
            }
        },
        _ => None,
    };
    match message {
        Some(m) => match m.get("content") {
            Some(JsonValue::Str(t)) => Ok(t.clone()),
            _ => Err("Invalid response format".to_owned()),
        },
        None => Err("Invalid response format".to_owned()),
    }
}

/// Whether request messages `ms`, from `off` on, carry the roles and contents of `messages`.
pub open spec fn carries(ms: Seq<JsonValue>, off: int, messages: Seq<Message>) -> bool {
    forall|k: int| 0 <= k < messages.len() ==> {
        &&& str_member(#[trigger] ms[k + off], "role"@) == Some(messages[k].role@)
        &&& str_member(ms[k + off], "content"@) == Some(messages[k].content@)
    }
}

/// The messages array of a request body.
pub open spec fn request_messages(body: JsonValue) -> Seq<JsonValue> {
    match body.spec_get("messages"@) {
        Some(JsonValue::Array(ms)) => ms@,
        _ => Seq::empty(),
    }
}

/// A string member.
fn str_pair(key: &str, value: &str) -> (r: (String, JsonValue))
    ensures
        r.0@ == key@,
        r.1 matches JsonValue::Str(t) && t@ == value@,
{
    (key.to_owned(), JsonValue::Str(value.to_owned()))
}

/// A tool call as a request carries it.
fn call_json(c: &ToolCall) -> (r: JsonValue) {
    let mut function: Vec<(String, JsonValue)> = Vec::new();
    function.push(str_pair("name", c.function.name.as_str()));
    function.push(str_pair("arguments", c.function.arguments.as_str()));
    let mut fields: Vec<(String, JsonValue)> = Vec::new();
    fields.push(str_pair("id", c.id.as_str()));
    fields.push(str_pair("type", c.type_.as_str()));
    fields.push(("function".to_owned(), JsonValue::Object(function)));
    JsonValue::Object(fields)
}

/// A role and a content as a request message.
fn role_message(role: &str, content: &str) -> (r: Vec<(String, JsonValue)>)
    ensures
        r@.len() == 2,
        r@[0].0@ == "role"@,
        r@[0].1 matches JsonValue::Str(t) && t@ == role@,
        r@[1].0@ == "content"@,
        r@[1].1 matches JsonValue::Str(t) && t@ == content@,
        str_member(JsonValue::Object(r), "role"@) == Some(role@),
        str_member(JsonValue::Object(r), "content"@) == Some(content@),
{
    proof {
        reveal_strlit("role");
        reveal_strlit("content");
        assert("role"@.len() == 4 && "content"@.len() == 7);
    }
    let mut fields: Vec<(String, JsonValue)> = Vec::new();
    fields.push(str_pair("role", role));
    fields.push(str_pair("content", content));
    proof {
        lemma_member_at(fields@, 0, "role"@);
        lemma_member_at(fields@, 1, "content"@);
    }
    fields
}

/// One conversation message as a request message: its role and content, its tool
/// calls when it has any, and the call it answers when it is a tool reply.
fn message_json(m: &Message) -> (r: JsonValue)
    ensures
        str_member(r, "role"@) == Some(m.role@),
        str_member(r, "content"@) == Some(m.content@),
{
    let mut fields = role_message(m.role.as_str(), m.content.as_str());
    let ghost head = fields@;
    if m.tool_calls.len() > 0 {
        let mut calls: Vec<JsonValue> = Vec::new();
        let mut i: usize = 0;
        while i < m.tool_calls.len()
            invariant
                i <= m.tool_calls@.len(),
            decreases m.tool_calls.len() - i,
        {
            calls.push(call_json(&m.tool_calls[i]));
            i = i + 1;
        }
        fields.push(("tool_calls".to_owned(), JsonValue::Array(calls)));
    }
    if let Some(id) = &m.tool_call_id {
        fields.push(str_pair("tool_call_id", id.as_str()));
    }
    proof {
        reveal_strlit("role");
        reveal_strlit("content");
        assert("role"@.len() == 4 && "content"@.len() == 7);
        assert(fields@[0] == head[0] && fields@[1] == head[1]);
        lemma_member_at(fields@, 0, "role"@);
        lemma_member_at(fields@, 1, "content"@);
    }
    JsonValue::Object(fields)
}

/// The messages of a request: the system instruction, if any, then the conversation.
pub fn request_messages_json(instruction: Option<&str>, messages: &Vec<Message>) -> (r: Vec<JsonValue>)
    ensures
        ({
            let off: int = if instruction is Some { 1 } else { 0 };
            &&& r@.len() == messages@.len() + off
            &&& instruction matches Some(i) ==> str_member(r@[0], "role"@) == Some("system"@)
                && str_member(r@[0], "content"@) == Some(i@)
            &&& carries(r@, off, messages@)
        }),
{
    let mut out: Vec<JsonValue> = Vec::new();
    let ghost off: int = if instruction is Some { 1 } else { 0 };
    if let Some(i) = instruction {
        out.push(JsonValue::Object(role_message("system", i)));
        proof {
            reveal_strlit("system");
        }
    }
    let mut k: usize = 0;
    while k < messages.len()
        invariant
            off == (if instruction is Some { 1int } else { 0 }),
            k <= messages@.len(),
            out@.len() == k + off,
            instruction matches Some(i) ==> str_member(out@[0], "role"@) == Some("system"@)
                && str_member(out@[0], "content"@) == Some(i@),
            forall|q: int| 0 <= q < k ==> {
                &&& str_member(#[trigger] out@[q + off], "role"@) == Some(messages@[q].role@)
                &&& str_member(out@[q + off], "content"@) == Some(messages@[q].content@)
            },
        decreases messages.len() - k,
    {
        out.push(message_json(&messages[k]));
        k = k + 1;
    }
    out
}

/// A tool offered to the model, in the chat-completion form.
fn tool_json(t: &ToolDefinition) -> (r: JsonValue) {
    let mut function: Vec<(String, JsonValue)> = Vec::new();
    function.push(str_pair("name", t.name.as_str()));
    function.push(str_pair("description", t.description.as_str()));
    function.push(("parameters".to_owned(), t.parameters.deep_copy()));
    let mut fields: Vec<(String, JsonValue)> = Vec::new();
    fields.push(str_pair("type", "function"));
    fields.push(("function".to_owned(), JsonValue::Object(function)));
    JsonValue::Object(fields)
}

/// The body of a chat-completion request: the model, the messages and, when any are
/// offered, the tools. `stream: false` is added when asked for.
pub fn chat_completion_request(
    model: &str,
    instruction: Option<&str>,
    messages: &Vec<Message>,
    tools: &Vec<ToolDefinition>,
    no_stream: bool,
) -> (r: JsonValue)
    ensures
        str_member(r, "model"@) == Some(model@),
        ({
            let off: int = if instruction is Some { 1 } else { 0 };
            let ms = request_messages(r);
            &&& ms.len() == messages@.len() + off
            &&& instruction matches Some(i) ==> str_member(ms[0], "role"@) == Some("system"@)
                && str_member(ms[0], "content"@) == Some(i@)
            &&& carries(ms, off, messages@)
        }),
        r.spec_get("tools"@) is Some <==> tools@.len() > 0,
        r.spec_get("tools"@) matches Some(JsonValue::Array(ts)) ==> ts@.len() == tools@.len(),
        r.spec_get("stream"@) == (if no_stream { Some(JsonValue::Bool(false)) } else { None }),
{
    proof {
        reveal_strlit("model");
        reveal_strlit("messages");
        reveal_strlit("tools");
        reveal_strlit("stream");
        assert("model"@.len() == 5 && "messages"@.len() == 8 && "tools"@.len() == 5 && "stream"@.len() == 6);
        assert("model"@[0] == 'm' && "tools"@[0] == 't');
        assert("model"@ != "tools"@);
    }
    let ms = request_messages_json(instruction, messages);
    let ghost msv = ms@;
    let mut fields: Vec<(String, JsonValue)> = Vec::new();
    fields.push(str_pair("model", model));
    fields.push(("messages".to_owned(), JsonValue::Array(ms)));
    if no_stream {
        fields.push(("stream".to_owned(), JsonValue::Bool(false)));
    }
    if tools.len() > 0 {
        let mut ts: Vec<JsonValue> = Vec::new();
        let mut i: usize = 0;
        while i < tools.len()
            invariant
                i <= tools@.len(),
                ts@.len() == i,
            decreases tools.len() - i,
        {
            ts.push(tool_json(&tools[i]));
            i = i + 1;
        }
        fields.push(("tools".to_owned(), JsonValue::Array(ts)));
    }
    let ghost f = fields@;
    proof {
        lemma_member_at(f, 0, "model"@);
        lemma_member_at(f, 1, "messages"@);
        assert(request_messages(JsonValue::Object(fields)) == msv);

        if no_stream {
            lemma_member_at(f, 2, "stream"@);
        } else {
            lemma_member_absent(f, "stream"@);
        }
        if tools@.len() > 0 {
            lemma_member_at(f, f.len() - 1, "tools"@);
        } else {
            lemma_member_absent(f, "tools"@);
        }
    }
    JsonValue::Object(fields)
}

/// A function call in a generated-content part: its name (empty when missing).
pub open spec fn part_call(p: JsonValue) -> Option<Seq<char>> {
    match p.spec_get("functionCall"@) {
        Some(f) => Some(
            match str_member(f, "name"@) {
                Some(n) => n,
                None => Seq::empty(),
            },
        ),
        None => None,
    }
}

/// The text of a generated-content part (empty when it has none).
pub open spec fn part_text(p: JsonValue) -> Seq<char> {
    match p.spec_get("text"@) {
        Some(t) => match t.spec_as_str() {
            Some(x) => x,
            None => Seq::empty(),
        },
        None => Seq::empty(),
    }
}

/// The texts of the parts, one after another.
pub open spec fn parts_text(ps: Seq<JsonValue>) -> Seq<char>
    decreases ps.len(),
{
    if ps.len() == 0 {
        Seq::empty()
    } else {
        parts_text(ps.drop_last()) + part_text(ps.last())
    }
}

/// The names of the function calls among the parts, in order.
pub open spec fn call_names(ps: Seq<JsonValue>) -> Seq<Seq<char>>
    decreases ps.len(),
{
    if ps.len() == 0 {
        Seq::empty()
    } else {
        match part_call(ps.last()) {
            Some(n) => call_names(ps.drop_last()).push(n),
            None => call_names(ps.drop_last()),
        }
    }
}

/// The arguments of a function-call part (`null` when missing).
pub open spec fn part_args(p: JsonValue) -> JsonValue {
    match p.spec_get("functionCall"@) {
        Some(f) => match f.spec_get("args"@) {
            Some(a) => a,
            None => JsonValue::Null,
        },
        None => JsonValue::Null,
    }
}

/// The arguments of the function calls among the parts, in order.
pub open spec fn call_args(ps: Seq<JsonValue>) -> Seq<JsonValue>
    decreases ps.len(),
{
    if ps.len() == 0 {
        Seq::empty()
    } else {
        match part_call(ps.last()) {
            Some(_) => call_args(ps.drop_last()).push(part_args(ps.last())),
            None => call_args(ps.drop_last()),
        }
    }
}

/// `candidates[0].content.parts` of a generated-content reply.
pub open spec fn content_parts(reply: JsonValue) -> Option<Seq<JsonValue>> {
    match reply.spec_get("candidates"@) {
        Some(JsonValue::Array(cs)) if cs@.len() > 0 => match cs@[0].spec_get("content"@) {
            Some(c) => match c.spec_get("parts"@) {
                Some(JsonValue::Array(ps)) => Some(ps@),
                _ => None,
            },
            None => None,
        },
        _ => None,
    }
}

/// What a generated-content reply holds: the function calls (name and arguments) and
/// the text.
pub struct ContentReply {
    pub calls: Vec<(String, JsonValue)>,
    pub text: String,
}

/// Reads a generated-content reply; `None` when it has no parts array.
pub fn content_reply(reply: &JsonValue) -> (r: Option<ContentReply>)
    ensures
        r is Some <==> content_parts(*reply) is Some,
        r matches Some(c) ==> ({
            let ps = content_parts(*reply)->0;
            &&& c.text@ == parts_text(ps)
            &&& c.calls@.len() == call_names(ps).len()
            &&& forall|k: int| 0 <= k < c.calls@.len() ==> (#[trigger] c.calls@[k]).0@ == call_names(ps)[k]
                && same(call_args(ps)[k], c.calls@[k].1)
        }),
{
    let parts: &Vec<JsonValue> = match reply.get("candidates") {
        Some(JsonValue::Array(cs)) => {
            if cs.len() == 0 {
                return None;
            }
            match cs[0].get("content") {
                Some(c) => match c.get("parts") {
                    Some(JsonValue::Array(ps)) => ps,
                    _ => {
                        return None;
                    },
                },
                None => {
                    return None;
                },
            }
        },
        _ => {
            return None;
        },
    };
    let ghost ps = parts@;
    let mut calls: Vec<(String, JsonValue)> = Vec::new();
    let mut text = String::new();
    let mut i: usize = 0;
    while i < parts.len()
        invariant
            ps == parts@,
            content_parts(*reply) == Some(ps),
            i <= ps.len(),
            text@ == parts_text(ps.subrange(0, i as int)),
            calls@.len() == call_names(ps.subrange(0, i as int)).len(),
            call_args(ps.subrange(0, i as int)).len() == calls@.len(),
            forall|k: int| 0 <= k < calls@.len() ==> (#[trigger] calls@[k]).0@ == call_names(ps.subrange(0, i as int))[k]
                && same(call_args(ps.subrange(0, i as int))[k], calls@[k].1),
        decreases parts.len() - i,
    {
        let part = &parts[i];
        assert(ps.subrange(0, i + 1).drop_last() == ps.subrange(0, i as int));
        assert(ps.subrange(0, i + 1).last() == ps[i as int]);
        if let Some(f) = part.get("functionCall") {
            let name: String = match f.get("name") {
                Some(n) => match n.as_str() {
                    Some(x) => x.to_owned(),
                    None => String::new(),
                },
                None => String::new(),
            };
            let args = match f.get("args") {
                Some(a) => a.deep_copy(),
                None => JsonValue::Null,
            };
            assert(same(part_args(ps[i as int]), args));
            calls.push((name, args));
        }
        if let Some(t) = part.get("text") {
            if let Some(x) = t.as_str() {
                text.append(x);
            }
        }
        i = i + 1;
    }
    assert(ps.subrange(0, ps.len() as int) == ps);
    Some(ContentReply { calls, text })
}

} // verus!
