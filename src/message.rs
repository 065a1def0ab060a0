use vstd::prelude::*;

use crate::content::{Content, content_decodes, content_encodes, tag, text_member};
use crate::json::{JsonValue, member, push_member, str_member};
use crate::text::text_is;

verus! {

broadcast use vstd::std_specs::vec::group_vec_axioms, vstd::string::group_string_axioms;

/// Who wrote a message.
#[derive(Clone, Copy, Debug, PartialEq, Eq, Structural)]
pub enum Role {
    System,
    Assistant,
    User,
}

/// Token accounting that the agent reports with a message; counts keep the
/// number text they were written with.
#[derive(Debug)]
pub struct Usage {
    pub input_tokens: String,
    pub cache_creation_input_tokens: String,
    pub cache_read_input_tokens: String,
    pub output_tokens: String,
    pub service_tier: String,
}

/// One message of a conversation turn.
#[derive(Debug)]
pub struct Message {
    pub role: Role,
    pub content: Content,
    pub id: Option<String>,
    pub model: Option<String>,
    pub stop_reason: Option<String>,
    pub stop_sequence: Option<String>,
    pub usage: Option<Usage>,
}

/// How a turn ended.
#[derive(Clone, Copy, Debug, PartialEq, Eq, Structural)]
pub enum ResultErrorType {
    Success,
    ErrorMaxTurns,
    ErrorDuringExecution,
}

/// A side-channel server as the agent lists it at start.
#[derive(Debug)]
pub struct McpServer {
    pub name: String,
    pub status: String,
}

/// How the agent asks for permission.
#[derive(Clone, Copy, Debug, PartialEq, Eq, Structural)]
pub enum PermissionMode {
    Default,
    AcceptEdits,
    BypassPermissions,
    Plan,
}

/// One envelope of the line protocol. Timings and the cost keep the number
/// text they were written with.
#[derive(Debug)]
#[allow(inconsistent_fields)]
pub enum SdkMessage {
    Assistant { message: Message, session_id: Option<String> },
    User { message: Message, session_id: Option<String> },
    Result {
        subtype: ResultErrorType,
        duration_ms: String,
        duration_api_ms: String,
        is_error: bool,
        num_turns: String,
        result: Option<String>,
        session_id: String,
        total_cost_usd: String,
    },
    System {
        cwd: String,
        session_id: String,
        tools: Vec<String>,
        model: String,
        mcp_servers: Vec<McpServer>,
        api_key_source: String,
        permission_mode: PermissionMode,
    },
}

pub open spec fn role_named(t: Seq<char>) -> Option<Role> {
    if t == "system"@ {
        Some(Role::System)
    } else if t == "assistant"@ {
        Some(Role::Assistant)
    } else if t == "user"@ {
        Some(Role::User)
    } else {
        None
    }
}

pub open spec fn role_name(r: Role) -> Seq<char> {
    match r {
        Role::System => "system"@,
        Role::Assistant => "assistant"@,
        Role::User => "user"@,
    }
}

pub open spec fn result_type_named(t: Seq<char>) -> Option<ResultErrorType> {
    if t == "success"@ {
        Some(ResultErrorType::Success)
    } else if t == "error_max_turns"@ {
        Some(ResultErrorType::ErrorMaxTurns)
    } else if t == "error_during_execution"@ {
        Some(ResultErrorType::ErrorDuringExecution)
    } else {
        None
    }
}

pub open spec fn result_type_name(r: ResultErrorType) -> Seq<char> {
    match r {
        ResultErrorType::Success => "success"@,
        ResultErrorType::ErrorMaxTurns => "error_max_turns"@,
        ResultErrorType::ErrorDuringExecution => "error_during_execution"@,
    }
}

pub open spec fn permission_mode_named(t: Seq<char>) -> Option<PermissionMode> {
    if t == "default"@ {
        Some(PermissionMode::Default)
    } else if t == "acceptEdits"@ {
        Some(PermissionMode::AcceptEdits)
    } else if t == "bypassPermissions"@ {
        Some(PermissionMode::BypassPermissions)
    } else if t == "plan"@ {
        Some(PermissionMode::Plan)
    } else {
        None
    }
}

pub open spec fn permission_mode_name(p: PermissionMode) -> Seq<char> {
    match p {
        PermissionMode::Default => "default"@,
        PermissionMode::AcceptEdits => "acceptEdits"@,
        PermissionMode::BypassPermissions => "bypassPermissions"@,
        PermissionMode::Plan => "plan"@,
    }
}

/// The number text of member `key` of `j`, where that member is a number.
pub open spec fn number_member(j: JsonValue, key: Seq<char>) -> Option<Seq<char>> {
    match member(j, key) {
        Some(JsonValue::Number(t)) => Some(t@),
        _ => None,
    }
}

/// The value of member `key` of `j`, where that member is `true` or `false`.
pub open spec fn bool_member(j: JsonValue, key: Seq<char>) -> Option<bool> {
    match member(j, key) {
        Some(JsonValue::Bool(b)) => Some(b),
        _ => None,
    }
}

/// `o` is what the optional text member `key` of `j` reads as: absent or null
/// is `None`, a string is its text; anything else cannot be read.
pub open spec fn opt_text_decodes(j: JsonValue, key: Seq<char>, o: Option<String>) -> bool {
    match member(j, key) {
        None => o is None,
        Some(JsonValue::Null) => o is None,
        Some(JsonValue::Str(s)) => o is Some && o->0@ == s@,
        _ => false,
    }
}

pub open spec fn usage_decodes(j: JsonValue, u: Usage) -> bool {
    &&& number_member(j, "input_tokens"@) == Some(u.input_tokens@)
    &&& number_member(j, "cache_creation_input_tokens"@) == Some(u.cache_creation_input_tokens@)
    &&& number_member(j, "cache_read_input_tokens"@) == Some(u.cache_read_input_tokens@)
    &&& number_member(j, "output_tokens"@) == Some(u.output_tokens@)
    &&& str_member(j, "service_tier"@) == Some(u.service_tier@)
}

pub open spec fn opt_usage_decodes(j: JsonValue, u: Option<Usage>) -> bool {
    match member(j, "usage"@) {
        None => u is None,
        Some(JsonValue::Null) => u is None,
        Some(x) => u is Some && usage_decodes(x, u->0),
    }
}

/// `m` is what message document `j` reads as.
pub open spec fn message_decodes(j: JsonValue, m: Message) -> bool {
    &&& str_member(j, "role"@) matches Some(t) && role_named(t) == Some(m.role)
    &&& member(j, "content"@) matches Some(c) && content_decodes(c, m.content)
    &&& opt_text_decodes(j, "id"@, m.id)
    &&& opt_text_decodes(j, "model"@, m.model)
    &&& opt_text_decodes(j, "stop_reason"@, m.stop_reason)
    &&& opt_text_decodes(j, "stop_sequence"@, m.stop_sequence)
    &&& opt_usage_decodes(j, m.usage)
}

/// `v` is what a member that lists strings reads as.
pub open spec fn texts_decode(j: Option<JsonValue>, v: Vec<String>) -> bool {
    &&& j matches Some(JsonValue::Array(items))
    &&& j->0->Array_0.len() == v.len()
    &&& forall|i: int|
        0 <= i < v.len() ==> (#[trigger] j->0->Array_0[i]) is Str && j->0->Array_0[i]->Str_0@ == v[i]@
}

/// `v` is what a member that lists servers reads as.
pub open spec fn servers_decode(j: Option<JsonValue>, v: Vec<McpServer>) -> bool {
    &&& j matches Some(JsonValue::Array(items))
    &&& j->0->Array_0.len() == v.len()
    &&& forall|i: int|
        0 <= i < v.len() ==> str_member(#[trigger] j->0->Array_0[i], "name"@) == Some(v[i].name@)
            && str_member(j->0->Array_0[i], "status"@) == Some(v[i].status@)
}

/// `m` is what envelope document `j` reads as: an object whose `type` member
/// names the kind of envelope, with the members that kind needs.
pub open spec fn sdk_message_decodes(j: JsonValue, m: SdkMessage) -> bool {
    let t = tag(j);
    if t == Some("assistant"@) {
        &&& m is Assistant
        &&& member(j, "message"@) matches Some(x) && message_decodes(x, m->Assistant_message)
        &&& opt_text_decodes(j, "session_id"@, m->Assistant_session_id)
    } else if t == Some("user"@) {
        &&& m is User
        &&& member(j, "message"@) matches Some(x) && message_decodes(x, m->User_message)
        &&& opt_text_decodes(j, "session_id"@, m->User_session_id)
    } else if t == Some("result"@) {
        &&& m is Result
        &&& str_member(j, "subtype"@) matches Some(s) && result_type_named(s) == Some(m->subtype)
        &&& number_member(j, "duration_ms"@) == Some(m->duration_ms@)
        &&& number_member(j, "duration_api_ms"@) == Some(m->duration_api_ms@)
        &&& bool_member(j, "is_error"@) == Some(m->is_error)
        &&& number_member(j, "num_turns"@) == Some(m->num_turns@)
        &&& opt_text_decodes(j, "result"@, m->result)
        &&& str_member(j, "session_id"@) == Some(m->Result_session_id@)
        &&& number_member(j, "total_cost_usd"@) == Some(m->total_cost_usd@)
    } else if t == Some("system"@) {
        &&& m is System
        &&& str_member(j, "cwd"@) == Some(m->cwd@)
        &&& str_member(j, "session_id"@) == Some(m->System_session_id@)
        &&& texts_decode(member(j, "tools"@), m->tools)
        &&& str_member(j, "model"@) == Some(m->model@)
        &&& servers_decode(member(j, "mcp_servers"@), m->mcp_servers)
        &&& str_member(j, "apiKeySource"@) == Some(m->api_key_source@)
        &&& str_member(j, "permissionMode"@) matches Some(p) && permission_mode_named(p) == Some(m->permission_mode)
    } else {
        false
    }
}

/// The number text of member `key` of `j`, where that member is a number.
fn number_at(j: &JsonValue, key: &str) -> (r: Option<String>)
    ensures
        r matches Some(t) ==> number_member(*j, key@) == Some(t@),
        r is None ==> number_member(*j, key@) is None,
{
    match j.get(key) {
        Some(JsonValue::Number(t)) => Some(t.clone()),
        _ => None,
    }
}

/// The value of member `key` of `j`, where that member is `true` or `false`.
fn bool_at(j: &JsonValue, key: &str) -> (r: Option<bool>)
    ensures
        r == bool_member(*j, key@),
{
    match j.get(key) {
        Some(JsonValue::Bool(b)) => Some(*b),
        _ => None,
    }
}

/// Reads the optional text member `key` of `j`.
fn opt_text_at(j: &JsonValue, key: &str) -> (r: Option<Option<String>>)
    ensures
        r matches Some(o) ==> opt_text_decodes(*j, key@, o),
        r is None ==> forall|o: Option<String>| !opt_text_decodes(*j, key@, o),
{
    match j.get(key) {
        None => Some(None),
        Some(JsonValue::Null) => Some(None),
        Some(JsonValue::Str(s)) => Some(Some(s.clone())),
        _ => None,
    }
}

impl Role {
    fn from_name(t: &String) -> (r: Option<Role>)
        ensures
            r == role_named(t@),
    {
        proof {
            lemma_member_names();
        }
        if text_is(t, "system") {
            Some(Role::System)
        } else if text_is(t, "assistant") {
            Some(Role::Assistant)
        } else if text_is(t, "user") {
            Some(Role::User)
        } else {
            None
        }
    }

    fn name(&self) -> (r: &'static str)
        ensures
            r@ == role_name(*self),
    {
        match self {
            Role::System => "system",
            Role::Assistant => "assistant",
            Role::User => "user",
        }
    }
}

impl ResultErrorType {
    fn from_name(t: &String) -> (r: Option<ResultErrorType>)
        ensures
            r == result_type_named(t@),
    {
        if text_is(t, "success") {
            Some(ResultErrorType::Success)
        } else if text_is(t, "error_max_turns") {
            Some(ResultErrorType::ErrorMaxTurns)
        } else if text_is(t, "error_during_execution") {
            Some(ResultErrorType::ErrorDuringExecution)
        } else {
            None
        }
    }

    /// The wire name of this outcome (`error_max_turns`, ...).
    pub fn name(&self) -> (r: &'static str)
        ensures
            r@ == result_type_name(*self),
    {
        match self {
            ResultErrorType::Success => "success",
            ResultErrorType::ErrorMaxTurns => "error_max_turns",
            ResultErrorType::ErrorDuringExecution => "error_during_execution",
        }
    }
}

impl PermissionMode {
    fn from_name(t: &String) -> (r: Option<PermissionMode>)
        ensures
            r == permission_mode_named(t@),
    {
        if text_is(t, "default") {
            Some(PermissionMode::Default)
        } else if text_is(t, "acceptEdits") {
            Some(PermissionMode::AcceptEdits)
        } else if text_is(t, "bypassPermissions") {
            Some(PermissionMode::BypassPermissions)
        } else if text_is(t, "plan") {
            Some(PermissionMode::Plan)
        } else {
            None
        }
    }

    fn name(&self) -> (r: &'static str)
        ensures
            r@ == permission_mode_name(*self),
    {
        match self {
            PermissionMode::Default => "default",
            PermissionMode::AcceptEdits => "acceptEdits",
            PermissionMode::BypassPermissions => "bypassPermissions",
            PermissionMode::Plan => "plan",
        }
    }
}

impl Usage {
    pub fn decode(j: &JsonValue) -> (r: Option<Usage>)
        ensures
            r matches Some(u) ==> usage_decodes(*j, u),
            r is None ==> forall|u: Usage| !usage_decodes(*j, u),
    {
        let input_tokens = match number_at(j, "input_tokens") {
            Some(t) => t,
            None => return None,
        };
        let cache_creation_input_tokens = match number_at(j, "cache_creation_input_tokens") {
            Some(t) => t,
            None => return None,
        };
        let cache_read_input_tokens = match number_at(j, "cache_read_input_tokens") {
            Some(t) => t,
            None => return None,
        };
        let output_tokens = match number_at(j, "output_tokens") {
            Some(t) => t,
            None => return None,
        };
        let service_tier = match text_member(j, "service_tier") {
            Some(t) => t,
            None => return None,
        };
        Some(Usage { input_tokens, cache_creation_input_tokens, cache_read_input_tokens, output_tokens, service_tier })
    }
}

impl Message {
    /// Reads a message from its JSON form; `None` where a member it needs is
    /// missing or of the wrong kind.
    pub fn decode(j: &JsonValue) -> (r: Option<Message>)
        ensures
            r matches Some(m) ==> message_decodes(*j, m),
            r is None ==> forall|m: Message| !message_decodes(*j, m),
    {
        let role = match text_member(j, "role") {
            Some(t) => match Role::from_name(&t) {
                Some(role) => role,
                None => return None,
            },
            None => return None,
        };
        let content = match j.get("content") {
            Some(c) => match Content::decode(c) {
                Some(content) => content,
                None => return None,
            },
            None => return None,
        };
        let id = match opt_text_at(j, "id") {
            Some(o) => o,
            None => return None,
        };
        let model = match opt_text_at(j, "model") {
            Some(o) => o,
            None => return None,
        };
        let stop_reason = match opt_text_at(j, "stop_reason") {
            Some(o) => o,
            None => return None,
        };
        let stop_sequence = match opt_text_at(j, "stop_sequence") {
            Some(o) => o,
            None => return None,
        };
        let usage = match j.get("usage") {
            None => None,
            Some(JsonValue::Null) => None,
            Some(u) => match Usage::decode(u) {
                Some(u) => Some(u),
                None => return None,
            },
        };
        Some(Message { role, content, id, model, stop_reason, stop_sequence, usage })
    }
}

/// Reads a list of strings.
fn decode_texts(a: &JsonValue) -> (r: Option<Vec<String>>)
    ensures
        r matches Some(v) ==> texts_decode(Some(*a), v),
        r is None ==> forall|v: Vec<String>| !texts_decode(Some(*a), v),
{
    match a {
        JsonValue::Array(items) => {
            let mut out: Vec<String> = Vec::new();
            let mut i: usize = 0;
            while i < items.len()
                invariant
                    0 <= i <= items.len(),
                    out.len() == i,
                    *a == JsonValue::Array(*items),
                    forall|k: int| 0 <= k < i ==> (#[trigger] items[k]) is Str && items[k]->Str_0@ == out[k]@,
                decreases items.len() - i,
            {
                match &items[i] {
                    JsonValue::Str(s) => out.push(s.clone()),
                    _ => {
                        proof {
                            assert forall|v: Vec<String>| !texts_decode(Some(*a), v) by {
                                if texts_decode(Some(*a), v) {
                                    assert(items[i as int] is Str);
                                }
                            }
                        }
                        return None;
                    },
                }
                i = i + 1;
            }
            Some(out)
        },
        _ => None,
    }
}

/// Reads a list of servers.
fn decode_servers(a: &JsonValue) -> (r: Option<Vec<McpServer>>)
    ensures
        r matches Some(v) ==> servers_decode(Some(*a), v),
        r is None ==> forall|v: Vec<McpServer>| !servers_decode(Some(*a), v),
{
    match a {
        JsonValue::Array(items) => {
            let mut out: Vec<McpServer> = Vec::new();
            let mut i: usize = 0;
            while i < items.len()
                invariant
                    0 <= i <= items.len(),
                    out.len() == i,
                    *a == JsonValue::Array(*items),
                    forall|k: int|
                        0 <= k < i ==> str_member(#[trigger] items[k], "name"@) == Some(out[k].name@) && str_member(
                            items[k],
                            "status"@,
                        ) == Some(out[k].status@),
                decreases items.len() - i,
            {
                let name = text_member(&items[i], "name");
                let status = text_member(&items[i], "status");
                match (name, status) {
                    (Some(name), Some(status)) => out.push(McpServer { name, status }),
                    _ => {
                        proof {
                            assert forall|v: Vec<McpServer>| !servers_decode(Some(*a), v) by {
                                if servers_decode(Some(*a), v) {
                                    assert(str_member(items[i as int], "name"@) == Some(v[i as int].name@));
                                }
                            }
                        }
                        return None;
                    },
                }
                i = i + 1;
            }
            Some(out)
        },
        _ => None,
    }
}

impl SdkMessage {
    /// Reads an envelope from its JSON form; `None` where the `type` member
    /// names no known envelope or a member that envelope needs is missing or of
    /// the wrong kind.
    pub fn decode(j: &JsonValue) -> (r: Option<SdkMessage>)
        ensures
            r matches Some(m) ==> sdk_message_decodes(*j, m),
            r is None ==> forall|m: SdkMessage| !sdk_message_decodes(*j, m),
    {
        proof {
            lemma_member_names();
        }
        let t = match text_member(j, "type") {
            Some(t) => t,
            None => return None,
        };
        if text_is(&t, "assistant") || text_is(&t, "user") {
            let message = match j.get("message") {
                Some(x) => match Message::decode(x) {
                    Some(m) => m,
                    None => return None,
                },
                None => return None,
            };
            let session_id = match opt_text_at(j, "session_id") {
                Some(o) => o,
                None => return None,
            };
            if text_is(&t, "assistant") {
                Some(SdkMessage::Assistant { message, session_id })
            } else {
                Some(SdkMessage::User { message, session_id })
            }
        } else if text_is(&t, "result") {
            let subtype = match text_member(j, "subtype") {
                Some(s) => match ResultErrorType::from_name(&s) {
                    Some(k) => k,
                    None => return None,
                },
                None => return None,
            };
            let duration_ms = match number_at(j, "duration_ms") {
                Some(x) => x,
                None => return None,
            };
            let duration_api_ms = match number_at(j, "duration_api_ms") {
                Some(x) => x,
                None => return None,
            };
            let is_error = match bool_at(j, "is_error") {
                Some(b) => b,
                None => return None,
            };
            let num_turns = match number_at(j, "num_turns") {
                Some(x) => x,
                None => return None,
            };
            let result = match opt_text_at(j, "result") {
                Some(o) => o,
                None => return None,
            };
            let session_id = match text_member(j, "session_id") {
                Some(x) => x,
                None => return None,
            };
            let total_cost_usd = match number_at(j, "total_cost_usd") {
                Some(x) => x,
                None => return None,
            };
            Some(
                SdkMessage::Result {
                    subtype,
                    duration_ms,
                    duration_api_ms,
                    is_error,
                    num_turns,
                    result,
                    session_id,
                    total_cost_usd,
                },
            )
        } else if text_is(&t, "system") {
            let cwd = match text_member(j, "cwd") {
                Some(x) => x,
                None => return None,
            };
            let session_id = match text_member(j, "session_id") {
                Some(x) => x,
                None => return None,
            };
            let tools = match j.get("tools") {
                Some(a) => match decode_texts(a) {
                    Some(v) => v,
                    None => return None,
                },
                None => return None,
            };
            let model = match text_member(j, "model") {
                Some(x) => x,
                None => return None,
            };
            let mcp_servers = match j.get("mcp_servers") {
                Some(a) => match decode_servers(a) {
                    Some(v) => v,
                    None => return None,
                },
                None => return None,
            };
            let api_key_source = match text_member(j, "apiKeySource") {
                Some(x) => x,
                None => return None,
            };
            let permission_mode = match text_member(j, "permissionMode") {
                Some(p) => match PermissionMode::from_name(&p) {
                    Some(p) => p,
                    None => return None,
                },
                None => return None,
            };
            Some(
                SdkMessage::System {
                    cwd,
                    session_id,
                    tools,
                    model,
                    mcp_servers,
                    api_key_source,
                    permission_mode,
                },
            )
        } else {
            None
        }
    }
}

/// The lengths of the member names that envelopes use, and where names of
/// one length differ.
proof fn lemma_member_names()
    ensures
        "system"@.len() == 6,
        "assistant"@.len() == 9,
        "user"@.len() == 4,
        "result"@.len() == 6,
        "input_tokens"@.len() == 12,
        "cache_creation_input_tokens"@.len() == 27,
        "cache_read_input_tokens"@.len() == 23,
        "output_tokens"@.len() == 13,
        "service_tier"@.len() == 12,
        "role"@.len() == 4,
        "content"@.len() == 7,
        "id"@.len() == 2,
        "model"@.len() == 5,
        "stop_reason"@.len() == 11,
        "stop_sequence"@.len() == 13,
        "usage"@.len() == 5,
        "name"@.len() == 4,
        "status"@.len() == 6,
        "type"@.len() == 4,
        "message"@.len() == 7,
        "session_id"@.len() == 10,
        "subtype"@.len() == 7,
        "duration_ms"@.len() == 11,
        "duration_api_ms"@.len() == 15,
        "is_error"@.len() == 8,
        "num_turns"@.len() == 9,
        "total_cost_usd"@.len() == 14,
        "cwd"@.len() == 3,
        "tools"@.len() == 5,
        "mcp_servers"@.len() == 11,
        "apiKeySource"@.len() == 12,
        "permissionMode"@.len() == 14,
        "system"@[0] != "result"@[0],
        "system"@[1] != "status"@[1],
        "assistant"@[0] != "num_turns"@[0],
        "user"@[0] != "role"@[0],
        "user"@[0] != "name"@[0],
        "user"@[0] != "type"@[0],
        "result"@[0] != "status"@[0],
        "input_tokens"@[0] != "service_tier"@[0],
        "input_tokens"@[0] != "apiKeySource"@[0],
        "output_tokens"@[0] != "stop_sequence"@[0],
        "service_tier"@[0] != "apiKeySource"@[0],
        "role"@[0] != "name"@[0],
        "role"@[0] != "type"@[0],
        "content"@[0] != "message"@[0],
        "content"@[0] != "subtype"@[0],
        "model"@[0] != "usage"@[0],
        "model"@[0] != "tools"@[0],
        "stop_reason"@[0] != "duration_ms"@[0],
        "stop_reason"@[0] != "mcp_servers"@[0],
        "usage"@[0] != "tools"@[0],
        "name"@[0] != "type"@[0],
        "message"@[0] != "subtype"@[0],
        "duration_ms"@[0] != "mcp_servers"@[0],
        "total_cost_usd"@[0] != "permissionMode"@[0],
{
    reveal_strlit("system");
    reveal_strlit("assistant");
    reveal_strlit("user");
    reveal_strlit("result");
    reveal_strlit("input_tokens");
    reveal_strlit("cache_creation_input_tokens");
    reveal_strlit("cache_read_input_tokens");
    reveal_strlit("output_tokens");
    reveal_strlit("service_tier");
    reveal_strlit("role");
    reveal_strlit("content");
    reveal_strlit("id");
    reveal_strlit("model");
    reveal_strlit("stop_reason");
    reveal_strlit("stop_sequence");
    reveal_strlit("usage");
    reveal_strlit("name");
    reveal_strlit("status");
    reveal_strlit("type");
    reveal_strlit("message");
    reveal_strlit("session_id");
    reveal_strlit("subtype");
    reveal_strlit("duration_ms");
    reveal_strlit("duration_api_ms");
    reveal_strlit("is_error");
    reveal_strlit("num_turns");
    reveal_strlit("total_cost_usd");
    reveal_strlit("cwd");
    reveal_strlit("tools");
    reveal_strlit("mcp_servers");
    reveal_strlit("apiKeySource");
    reveal_strlit("permissionMode");
}

/// Optional text member `key` of `j` holds `o`: absent where `o` is `None`.
pub open spec fn opt_text_encodes(j: JsonValue, key: Seq<char>, o: Option<String>) -> bool {
    match o {
        None => member(j, key) is None,
        Some(s) => str_member(j, key) == Some(s@),
    }
}

/// `j` is the JSON form of message `m`; absent optional fields are left out.
pub open spec fn message_encodes(m: Message, j: JsonValue) -> bool {
    &&& j is Object
    &&& str_member(j, "role"@) == Some(role_name(m.role))
    &&& member(j, "content"@) matches Some(c) && content_encodes(m.content, c)
    &&& opt_text_encodes(j, "id"@, m.id)
    &&& opt_text_encodes(j, "model"@, m.model)
    &&& opt_text_encodes(j, "stop_reason"@, m.stop_reason)
    &&& opt_text_encodes(j, "stop_sequence"@, m.stop_sequence)
    &&& match m.usage {
        None => member(j, "usage"@) is None,
        Some(u) => member(j, "usage"@) matches Some(x) && usage_decodes(x, u),
    }
}

/// `j` is the JSON form of envelope `m`: an object whose `type` member names
/// the kind, with that kind's fields; absent optional fields are left out.
pub open spec fn sdk_message_encodes(m: SdkMessage, j: JsonValue) -> bool {
    &&& j is Object
    &&& match m {
        SdkMessage::Assistant { message, session_id } => {
            &&& tag(j) == Some("assistant"@)
            &&& member(j, "message"@) matches Some(x) && message_encodes(message, x)
            &&& opt_text_encodes(j, "session_id"@, session_id)
        },
        SdkMessage::User { message, session_id } => {
            &&& tag(j) == Some("user"@)
            &&& member(j, "message"@) matches Some(x) && message_encodes(message, x)
            &&& opt_text_encodes(j, "session_id"@, session_id)
        },
        SdkMessage::Result {
            subtype,
            duration_ms,
            duration_api_ms,
            is_error,
            num_turns,
            result,
            session_id,
            total_cost_usd,
        } => {
            &&& tag(j) == Some("result"@)
            &&& str_member(j, "subtype"@) == Some(result_type_name(subtype))
            &&& number_member(j, "duration_ms"@) == Some(duration_ms@)
            &&& number_member(j, "duration_api_ms"@) == Some(duration_api_ms@)
            &&& bool_member(j, "is_error"@) == Some(is_error)
            &&& number_member(j, "num_turns"@) == Some(num_turns@)
            &&& opt_text_encodes(j, "result"@, result)
            &&& str_member(j, "session_id"@) == Some(session_id@)
            &&& number_member(j, "total_cost_usd"@) == Some(total_cost_usd@)
        },
        SdkMessage::System {
            cwd,
            session_id,
            tools,
            model,
            mcp_servers,
            api_key_source,
            permission_mode,
        } => {
            &&& tag(j) == Some("system"@)
            &&& str_member(j, "cwd"@) == Some(cwd@)
            &&& str_member(j, "session_id"@) == Some(session_id@)
            &&& texts_decode(member(j, "tools"@), tools)
            &&& str_member(j, "model"@) == Some(model@)
            &&& servers_decode(member(j, "mcp_servers"@), mcp_servers)
            &&& str_member(j, "apiKeySource"@) == Some(api_key_source@)
            &&& str_member(j, "permissionMode"@) == Some(permission_mode_name(permission_mode))
        },
    }
}

fn text_json(s: &str) -> (r: JsonValue)
    ensures
        r is Str,
        r->Str_0@ == s@,
{
    JsonValue::Str(s.to_string())
}

impl Usage {
    pub fn encode(&self) -> (r: JsonValue)
        ensures
            usage_decodes(r, *self),
    {
        proof {
            lemma_member_names();
        }
        let mut f: Vec<(String, JsonValue)> = Vec::new();
        push_member(&mut f, "input_tokens", JsonValue::Number(self.input_tokens.clone()));
        push_member(&mut f, "cache_creation_input_tokens", JsonValue::Number(self.cache_creation_input_tokens.clone()));
        push_member(&mut f, "cache_read_input_tokens", JsonValue::Number(self.cache_read_input_tokens.clone()));
        push_member(&mut f, "output_tokens", JsonValue::Number(self.output_tokens.clone()));
        push_member(&mut f, "service_tier", JsonValue::Str(self.service_tier.clone()));
        JsonValue::Object(f)
    }
}

impl Message {
    /// The JSON form of this message.
    pub fn encode(&self) -> (r: JsonValue)
        ensures
            message_encodes(*self, r),
    {
        proof {
            lemma_member_names();
        }
        let mut f: Vec<(String, JsonValue)> = Vec::new();
        push_member(&mut f, "role", text_json(self.role.name()));
        push_member(&mut f, "content", self.content.encode());
        if let Some(x) = &self.id {
            push_member(&mut f, "id", JsonValue::Str(x.clone()));
        }
        if let Some(x) = &self.model {
            push_member(&mut f, "model", JsonValue::Str(x.clone()));
        }
        if let Some(x) = &self.stop_reason {
            push_member(&mut f, "stop_reason", JsonValue::Str(x.clone()));
        }
        if let Some(x) = &self.stop_sequence {
            push_member(&mut f, "stop_sequence", JsonValue::Str(x.clone()));
        }
        if let Some(u) = &self.usage {
            push_member(&mut f, "usage", u.encode());
        }
        JsonValue::Object(f)
    }
}

/// The JSON list of `v`.
pub(crate) fn encode_texts(v: &Vec<String>) -> (r: JsonValue)
    ensures
        texts_decode(Some(r), *v),
{
    let mut out: Vec<JsonValue> = Vec::new();
    let mut i: usize = 0;
    while i < v.len()
        invariant
            0 <= i <= v.len(),
            out.len() == i,
            forall|k: int| 0 <= k < i ==> (#[trigger] out[k]) is Str && out[k]->Str_0@ == v[k]@,
        decreases v.len() - i,
    {
        out.push(JsonValue::Str(v[i].clone()));
        i = i + 1;
    }
    JsonValue::Array(out)
}

/// The JSON list of `v`, each server an object with its name and status.
fn encode_servers(v: &Vec<McpServer>) -> (r: JsonValue)
    ensures
        servers_decode(Some(r), *v),
{
    let mut out: Vec<JsonValue> = Vec::new();
    let mut i: usize = 0;
    while i < v.len()
        invariant
            0 <= i <= v.len(),
            out.len() == i,
            forall|k: int|
                0 <= k < i ==> str_member(#[trigger] out[k], "name"@) == Some(v[k].name@) && str_member(
                    out[k],
                    "status"@,
                ) == Some(v[k].status@),
        decreases v.len() - i,
    {
        proof {
            lemma_member_names();
        }
        let mut f: Vec<(String, JsonValue)> = Vec::new();
        push_member(&mut f, "name", JsonValue::Str(v[i].name.clone()));
        push_member(&mut f, "status", JsonValue::Str(v[i].status.clone()));
        out.push(JsonValue::Object(f));
        i = i + 1;
    }
    JsonValue::Array(out)
}

impl SdkMessage {
    /// The JSON form of this envelope.
    pub fn encode(&self) -> (r: JsonValue)
        ensures
            sdk_message_encodes(*self, r),
    {
        proof {
            lemma_member_names();
        }
        let mut f: Vec<(String, JsonValue)> = Vec::new();
        match self {
            SdkMessage::Assistant { message, session_id } => {
                push_member(&mut f, "type", text_json("assistant"));
                push_member(&mut f, "message", message.encode());
                if let Some(x) = session_id {
                    push_member(&mut f, "session_id", JsonValue::Str(x.clone()));
                }
            },
            SdkMessage::User { message, session_id } => {
                push_member(&mut f, "type", text_json("user"));
                push_member(&mut f, "message", message.encode());
                if let Some(x) = session_id {
                    push_member(&mut f, "session_id", JsonValue::Str(x.clone()));
                }
            },
            SdkMessage::Result {
                subtype,
                duration_ms,
                duration_api_ms,
                is_error,
                num_turns,
                result,
                session_id,
                total_cost_usd,
            } => {
                push_member(&mut f, "type", text_json("result"));
                push_member(&mut f, "subtype", text_json(subtype.name()));
                push_member(&mut f, "duration_ms", JsonValue::Number(duration_ms.clone()));
                push_member(&mut f, "duration_api_ms", JsonValue::Number(duration_api_ms.clone()));
                push_member(&mut f, "is_error", JsonValue::Bool(*is_error));
                push_member(&mut f, "num_turns", JsonValue::Number(num_turns.clone()));
                if let Some(x) = result {
                    push_member(&mut f, "result", JsonValue::Str(x.clone()));
                }
                push_member(&mut f, "session_id", JsonValue::Str(session_id.clone()));
                push_member(&mut f, "total_cost_usd", JsonValue::Number(total_cost_usd.clone()));
            },
            SdkMessage::System {
                cwd,
                session_id,
                tools,
                model,
                mcp_servers,
                api_key_source,
                permission_mode,
            } => {
                push_member(&mut f, "type", text_json("system"));
                push_member(&mut f, "cwd", JsonValue::Str(cwd.clone()));
                push_member(&mut f, "session_id", JsonValue::Str(session_id.clone()));
                push_member(&mut f, "tools", encode_texts(tools));
                push_member(&mut f, "model", JsonValue::Str(model.clone()));
                push_member(&mut f, "mcp_servers", encode_servers(mcp_servers));
                push_member(&mut f, "apiKeySource", JsonValue::Str(api_key_source.clone()));
                push_member(&mut f, "permissionMode", text_json(permission_mode.name()));
            },
        }
        JsonValue::Object(f)
    }
}

} // verus!
