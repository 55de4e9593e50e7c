//! The embedded tool protocol: JSON-RPC 2.0 requests to the device and the replies to them.
use vstd::prelude::*;
use crate::json::{JsonValue, member, same, lemma_member_at};

verus! {

/// Protocol revision announced in `initialize`.
pub const PROTOCOL_VERSION: &'static str = "2024-11-05";

/// `jsonrpc` member of every request.
pub const JSONRPC_VERSION: &'static str = "2.0";

/// A JSON-RPC request envelope.
pub struct JsonRpcRequest {
    pub jsonrpc: String,
    pub method: String,
    pub params: Option<JsonValue>,
    pub id: Option<JsonValue>,
}

/// The error member of a JSON-RPC response.
pub struct JsonRpcError {
    pub code: i64,
    pub message: String,
    pub data: Option<JsonValue>,
}

/// A JSON-RPC response envelope.
pub struct JsonRpcResponse {
    pub jsonrpc: String,
    pub result: Option<JsonValue>,
    pub error: Option<JsonRpcError>,
    pub id: Option<JsonValue>,
}

/// Who the server is, as told to the device.
pub struct ClientInfo {
    pub name: String,
    pub version: String,
}

/// Who the device is, as it answers `initialize`.
pub struct ServerInfo {
    pub name: String,
    pub version: String,
}

/// Parameters of `initialize`.
pub struct McpInitializeParams {
    pub capabilities: JsonValue,
    pub protocol_version: String,
    pub client_info: ClientInfo,
}

/// Result of `initialize`.
pub struct McpInitializeResult {
    pub protocol_version: String,
    pub capabilities: JsonValue,
    pub server_info: ServerInfo,
}

/// A tool the device offers.
pub struct McpTool {
    pub name: String,
    pub description: String,
    pub input_schema: JsonValue,
}

/// Result of `tools/list`.
pub struct McpToolListResult {
    pub tools: Vec<McpTool>,
    pub next_cursor: Option<String>,
}

/// Parameters of `tools/call`.
pub struct McpToolCallParams {
    pub name: String,
    pub arguments: JsonValue,
}

/// One piece of a `tools/call` result.
pub enum McpContent {
    Text { text: String },
}

/// Result of `tools/call`.
pub struct McpToolCallResult {
    pub content: Vec<McpContent>,
    pub is_error: bool,
}

/// A method call the server makes on the device.
pub enum McpCall {
    /// `initialize`, with the server's identity and protocol revision.
    Initialize,
    /// `tools/list` from the given cursor.
    ToolsList { cursor: String },
    /// `tools/call`; `arguments` is the JSON text the model produced
    /// (an empty object goes on the wire when it is not valid JSON).
    ToolsCall { name: String, arguments: String },
}

/// A request to the device with its numeric id.
pub struct McpRequest {
    pub id: u64,
    pub call: McpCall,
}

/// Builds a JSON-RPC 2.0 request envelope.
pub fn create_request(method: &str, params: Option<JsonValue>, id: Option<JsonValue>) -> (r: JsonRpcRequest)
    ensures
        r.jsonrpc@ == JSONRPC_VERSION@,
        r.method@ == method@,
        r.params == params,
        r.id == id,
{
    JsonRpcRequest { jsonrpc: JSONRPC_VERSION.to_owned(), method: method.to_owned(), params, id }
}

/// Text of a member that holds a string.
pub open spec fn str_member(v: JsonValue, key: Seq<char>) -> Option<Seq<char>> {
    match v.spec_get(key) {
        Some(m) => m.spec_as_str(),
        None => None,
    }
}

/// A member that is present and not `null`.
pub open spec fn present(v: JsonValue, key: Seq<char>) -> Option<JsonValue> {
    match v.spec_get(key) {
        Some(JsonValue::Null) => None,
        other => other,
    }
}

/// Whether an error member has the shape of a JSON-RPC error.
pub open spec fn well_formed_error(e: JsonValue) -> bool {
    &&& e.spec_get("code"@) matches Some(JsonValue::Int(_))
    &&& str_member(e, "message"@) is Some
}

/// Whether a payload reads as a JSON-RPC response: an object with a string `jsonrpc`
/// member whose `error` member, when present, is a well-formed error.
pub open spec fn is_response(p: JsonValue) -> bool {
    &&& p is Object
    &&& str_member(p, "jsonrpc"@) is Some
    &&& (present(p, "error"@) matches Some(e) ==> well_formed_error(e))
}

/// The numeric id of a response; `None` for a notification, a non-integer id or
/// a payload that is no response.
pub open spec fn reply_id(p: JsonValue) -> Option<i64> {
    if is_response(p) {
        match present(p, "id"@) {
            Some(JsonValue::Int(n)) => Some(n),
            _ => None,
        }
    } else {
        None
    }
}

/// Decimal digits of a natural number.
pub open spec fn nat_text(n: nat) -> Seq<char>
    decreases n,
{
    if n < 10 {
        seq![('0' as u8 + n) as char]
    } else {
        nat_text(n / 10).push(('0' as u8 + n % 10) as char)
    }
}

/// Decimal text of an integer, with a leading `-` when negative.
pub open spec fn int_text(n: int) -> Seq<char> {
    if n < 0 {
        seq!['-'] + nat_text((-n) as nat)
    } else {
        nat_text(n as nat)
    }
}

/// How a JSON-RPC error is reported to the waiting caller: `code: message`.
pub open spec fn error_text(code: int, message: Seq<char>) -> Seq<char> {
    int_text(code) + seq![':', ' '] + message
}

/// Appends the decimal digits of `n`.
fn push_digits(out: &mut String, n: u64)
    ensures
        final(out)@ == old(out)@ + nat_text(n as nat),
    decreases n,
{
    if n >= 10 {
        push_digits(out, n / 10);
    }
    let d: u8 = (n % 10) as u8;
    crate::text::push_char(out, ('0' as u8 + d) as char);
    proof {
        if n < 10 {
            assert(old(out)@ + nat_text(n as nat) == old(out)@.push(('0' as u8 + n) as char));
        }
    }
}

/// The decimal text of an integer.
pub fn int_to_text(n: i64) -> (r: String)
    ensures
        r@ == int_text(n as int),
{
    let mut out = String::new();
    if n < 0 {
        out.append("-");
        proof {
            reveal_strlit("-");
            assert("-"@ =~= seq!['-']);
        }
        let magnitude: u64 = if n == i64::MIN {
            9223372036854775808u64
        } else {
            (-n) as u64
        };
        push_digits(&mut out, magnitude);
    } else {
        push_digits(&mut out, n as u64);
        assert(out@ =~= nat_text(n as nat));
    }
    out
}

/// How a JSON-RPC error is reported to its waiter.
pub fn format_rpc_error(code: i64, message: &str) -> (r: String)
    ensures
        r@ == error_text(code as int, message@),
{
    let mut r = int_to_text(code);
    r.append(": ");
    proof {
        reveal_strlit(": ");
        assert(": "@ =~= seq![':', ' ']);
    }
    r.append(message);
    r
}

/// The numeric id of a reply; see `reply_id`.
pub fn reply_id_of(payload: &JsonValue) -> (r: Option<i64>)
    ensures
        r == reply_id(*payload),
{
    let jsonrpc = payload.get("jsonrpc");
    let jsonrpc_ok = match jsonrpc {
        Some(v) => v.as_str().is_some(),
        None => false,
    };
    if !jsonrpc_ok || !matches!(payload, JsonValue::Object(_)) {
        return None;
    }
    if let Some(e) = present_of(payload, "error") {
        let code_ok = match e.get("code") {
            Some(c) => c.as_i64().is_some(),
            None => false,
        };
        let message_ok = match e.get("message") {
            Some(m) => m.as_str().is_some(),
            None => false,
        };
        if !code_ok || !message_ok {
            return None;
        }
    }
    match present_of(payload, "id") {
        Some(v) => v.as_i64(),
        None => None,
    }
}

/// A member that is present and not `null`.
pub fn present_of<'a>(v: &'a JsonValue, key: &str) -> (r: Option<&'a JsonValue>)
    ensures
        r matches Some(m) ==> present(*v, key@) == Some(*m),
        r is None ==> present(*v, key@) is None,
{
    match v.get(key) {
        Some(JsonValue::Null) => None,
        other => other,
    }
}

/// The `result` member of a reply, `null` when absent.
pub open spec fn result_or_null(p: JsonValue) -> JsonValue {
    match present(p, "result"@) {
        Some(v) => v,
        None => JsonValue::Null,
    }
}

/// What a reply delivers to its waiter: the error text when the reply carries an
/// error, its result otherwise.
pub open spec fn outcome_matches(p: JsonValue, r: Result<JsonValue, String>) -> bool {
    match present(p, "error"@) {
        Some(e) => r matches Err(t) && e.spec_get("code"@) matches Some(JsonValue::Int(code))
            && str_member(e, "message"@) matches Some(m) && t@ == error_text(code as int, m),
        None => r == Ok::<JsonValue, String>(result_or_null(p)),
    }
}

/// Removes and returns the first member named `key`.
fn take_member(fields: &mut Vec<(String, JsonValue)>, key: &str) -> (r: Option<JsonValue>)
    ensures
        r == member(old(fields)@, key@),
{
    let mut i: usize = 0;
    assert(old(fields)@.subrange(0, old(fields)@.len() as int) == old(fields)@);
    while i < fields.len()
        invariant
            i <= fields@.len(),
            fields@ == old(fields)@,
            member(fields@, key@) == member(fields@.subrange(i as int, fields@.len() as int), key@),
        decreases fields.len() - i,
    {
        let ghost rest = fields@.subrange(i as int, fields@.len() as int);
        assert(rest.drop_first() == fields@.subrange(i + 1, fields@.len() as int));
        assert(rest[0] == fields@[i as int]);
        let name: &str = fields[i].0.as_str();
        if crate::json::str_eq(name, key) {
            assert(member(rest, key@) == Some(rest[0].1));
            let (_, v) = fields.remove(i);
            return Some(v);
        }
        i = i + 1;
    }
    None
}

/// The outcome a reply delivers to its waiter.
pub fn into_outcome(payload: JsonValue) -> (r: Result<JsonValue, String>)
    requires
        is_response(payload),
    ensures
        outcome_matches(payload, r),
{
    if let Some(e) = present_of(&payload, "error") {
        let code = match e.get("code") {
            Some(c) => c.as_i64(),
            None => None,
        };
        let message = match e.get("message") {
            Some(m) => m.as_str(),
            None => None,
        };
        match (code, message) {
            (Some(c), Some(m)) => {
                return Err(format_rpc_error(c, m));
            },
            _ => {
                assert(false);
                return Ok(JsonValue::Null);
            },
        }
    }
    match payload {
        JsonValue::Object(mut fields) => {
            let result = take_member(&mut fields, "result");
            match result {
                Some(JsonValue::Null) => Ok(JsonValue::Null),
                Some(v) => Ok(v),
                None => Ok(JsonValue::Null),
            }
        },
        _ => Ok(JsonValue::Null),
    }
}

/// The description of a listed tool: empty when absent or `null`.
pub open spec fn description_of(item: JsonValue) -> Option<Seq<char>> {
    match present(item, "description"@) {
        None => Some(Seq::empty()),
        Some(JsonValue::Str(d)) => Some(d@),
        Some(_) => None,
    }
}

/// Whether a listed tool has a name, a usable description and an input schema.
pub open spec fn tool_ok(item: JsonValue) -> bool {
    &&& str_member(item, "name"@) is Some
    &&& description_of(item) is Some
    &&& item.spec_get("inputSchema"@) is Some
}

/// Whether a `tools/list` result reads as a tool list: a `tools` array of usable
/// tools and a `nextCursor` that is absent, `null` or a string.
pub open spec fn tool_list_ok(result: JsonValue) -> bool {
    &&& result.spec_get("tools"@) matches Some(JsonValue::Array(items))
        && forall|k: int| 0 <= k < items@.len() ==> tool_ok(#[trigger] items@[k])
    &&& (present(result, "nextCursor"@) matches Some(c) ==> c is Str)
}

/// The items of a `tools` array.
pub open spec fn listed_items(result: JsonValue) -> Seq<JsonValue> {
    match result.spec_get("tools"@) {
        Some(JsonValue::Array(items)) => items@,
        _ => Seq::empty(),
    }
}

/// Whether `t` is what listed tool `item` says: its name, description and input schema.
pub open spec fn tool_read(item: JsonValue, t: McpTool) -> bool {
    &&& t.name@ == str_member(item, "name"@)->0
    &&& Some(t.description@) == description_of(item)
    &&& item.spec_get("inputSchema"@) matches Some(sch) && same(sch, t.input_schema)
}

/// Whether the catalogue `ts` is what the listed tools `items` say, in order.
pub open spec fn tools_read(items: Seq<JsonValue>, ts: Seq<McpTool>) -> bool {
    &&& ts.len() == items.len()
    &&& forall|k: int| 0 <= k < ts.len() ==> tool_read(items[k], #[trigger] ts[k])
}

/// Reads one listed tool.
fn tool_of(item: &JsonValue) -> (r: Option<McpTool>)
    ensures
        r is Some <==> tool_ok(*item),
        r matches Some(t) ==> tool_read(*item, t),
{
    let name = match item.get("name") {
        Some(n) => n.as_str(),
        None => None,
    };
    let description: Option<String> = match present_of(item, "description") {
        None => Some(String::new()),
        Some(JsonValue::Str(d)) => Some(d.clone()),
        Some(_) => None,
    };
    let schema = item.get("inputSchema");
    match (name, description, schema) {
        (Some(n), Some(d), Some(sch)) => Some(McpTool { name: n.to_owned(), description: d, input_schema: sch.deep_copy() }),
        _ => None,
    }
}

/// Reads the tools of a `tools/list` result, in order; `None` when it does not read as a tool list.
pub fn tool_list_of(result: &JsonValue) -> (r: Option<Vec<McpTool>>)
    ensures
        r is Some <==> tool_list_ok(*result),
        r matches Some(ts) ==> tools_read(listed_items(*result), ts@),
{
    if let Some(c) = present_of(result, "nextCursor") {
        if c.as_str().is_none() {
            return None;
        }
    }
    let items = match result.get("tools") {
        Some(JsonValue::Array(items)) => items,
        _ => {
            return None;
        },
    };
    let mut tools: Vec<McpTool> = Vec::new();
    let mut i: usize = 0;
    while i < items.len()
        invariant
            i <= items@.len(),
            listed_items(*result) == items@,
            result.spec_get("tools"@) == Some(JsonValue::Array(*items)),
            present(*result, "nextCursor"@) matches Some(c) ==> c is Str,
            tools@.len() == i,
            forall|k: int| 0 <= k < i ==> tool_ok(#[trigger] items@[k]),
            forall|k: int| 0 <= k < i ==> tool_read(items@[k], #[trigger] tools@[k]),
        decreases items.len() - i,
    {
        match tool_of(&items[i]) {
            Some(t) => tools.push(t),
            None => {
                return None;
            },
        }
        i = i + 1;
    }
    Some(tools)
}

/// The server's name in `initialize`.
pub const CLIENT_NAME: &'static str = "XiaoZhi Server";

/// The server's version in `initialize`.
pub const CLIENT_VERSION: &'static str = "1.0.0";

/// The method name of a call.
pub open spec fn method_of(call: McpCall) -> Seq<char> {
    match call {
        McpCall::Initialize => "initialize"@,
        McpCall::ToolsList { .. } => "tools/list"@,
        McpCall::ToolsCall { .. } => "tools/call"@,
    }
}

/// Whether the params of `call` are as the protocol wants them; `arguments` is the
/// model's argument text read as JSON, if it reads.
pub open spec fn params_of(call: McpCall, arguments: Option<JsonValue>, p: JsonValue) -> bool {
    match call {
        McpCall::Initialize => {
            &&& p.spec_get("capabilities"@) matches Some(JsonValue::Object(fs)) && fs@.len() == 0
            &&& str_member(p, "protocolVersion"@) == Some(PROTOCOL_VERSION@)
            &&& p.spec_get("clientInfo"@) matches Some(ci) && str_member(ci, "name"@) == Some(CLIENT_NAME@)
                && str_member(ci, "version"@) == Some(CLIENT_VERSION@)
        },
        McpCall::ToolsList { cursor } => str_member(p, "cursor"@) == Some(cursor@),
        McpCall::ToolsCall { name, .. } => {
            &&& str_member(p, "name"@) == Some(name@)
            &&& match arguments {
                Some(a) => p.spec_get("arguments"@) == Some(a),
                None => p.spec_get("arguments"@) matches Some(JsonValue::Object(fs)) && fs@.len() == 0,
            }
        },
    }
}

/// A string member.
fn text_member(key: &str, value: &str) -> (r: (String, JsonValue))
    ensures
        r.0@ == key@,
        r.1 is Str && r.1->Str_0@ == value@,
{
    (key.to_owned(), JsonValue::Str(value.to_owned()))
}

impl McpRequest {
    /// The JSON-RPC envelope of this request. For `tools/call`, `arguments` is the
    /// model's argument text read as JSON; an empty object goes out when it does not read.
    pub fn envelope(self, arguments: Option<JsonValue>) -> (r: JsonRpcRequest)
        requires
            self.id <= 9223372036854775807u64,
        ensures
            r.jsonrpc@ == JSONRPC_VERSION@,
            r.method@ == method_of(self.call),
            r.id == Some(JsonValue::Int(self.id as i64)),
            r.params matches Some(p) && params_of(self.call, arguments, p),
    {
        let id = Some(JsonValue::Int(self.id as i64));
        let ghost call = self.call;
        match self.call {
            McpCall::Initialize => {
                proof {
                    reveal_strlit("capabilities");
                    reveal_strlit("protocolVersion");
                    reveal_strlit("clientInfo");
                    reveal_strlit("name");
                    reveal_strlit("version");
                    reveal_strlit("initialize");
                }
                let mut info: Vec<(String, JsonValue)> = Vec::new();
                info.push(text_member("name", CLIENT_NAME));
                info.push(text_member("version", CLIENT_VERSION));
                let mut fields: Vec<(String, JsonValue)> = Vec::new();
                fields.push(("capabilities".to_owned(), JsonValue::Object(Vec::new())));
                fields.push(text_member("protocolVersion", PROTOCOL_VERSION));
                fields.push(("clientInfo".to_owned(), JsonValue::Object(info)));
                proof {
                    assert("name"@.len() == 4 && "version"@.len() == 7);
                    assert("capabilities"@.len() == 12 && "protocolVersion"@.len() == 15 && "clientInfo"@.len() == 10);
                    lemma_member_at(info@, 0, "name"@);
                    lemma_member_at(info@, 1, "version"@);
                    lemma_member_at(fields@, 0, "capabilities"@);
                    lemma_member_at(fields@, 1, "protocolVersion"@);
                    lemma_member_at(fields@, 2, "clientInfo"@);
                }
                create_request("initialize", Some(JsonValue::Object(fields)), id)
            },
            McpCall::ToolsList { cursor } => {
                proof {
                    reveal_strlit("cursor");
                }
                let mut fields: Vec<(String, JsonValue)> = Vec::new();
                fields.push(text_member("cursor", cursor.as_str()));
                proof {
                    lemma_member_at(fields@, 0, "cursor"@);
                }
                create_request("tools/list", Some(JsonValue::Object(fields)), id)
            },
            McpCall::ToolsCall { name, arguments: _ } => {
                proof {
                    reveal_strlit("name");
                    reveal_strlit("arguments");
                    assert("name"@.len() == 4 && "arguments"@.len() == 9);
                }
                let args = match arguments {
                    Some(a) => a,
                    None => JsonValue::Object(Vec::new()),
                };
                let mut fields: Vec<(String, JsonValue)> = Vec::new();
                fields.push(text_member("name", name.as_str()));
                fields.push(("arguments".to_owned(), args));
                proof {
                    lemma_member_at(fields@, 0, "name"@);
                    lemma_member_at(fields@, 1, "arguments"@);
                }
                create_request("tools/call", Some(JsonValue::Object(fields)), id)
            },
        }
    }
}

} // verus!
