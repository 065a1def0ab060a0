use vstd::prelude::*;

use crate::json::{JsonValue, member, push_member, str_member};
use crate::message::{encode_texts, texts_decode};

verus! {

use vstd::string::StringExecFns;

broadcast use vstd::std_specs::vec::group_vec_axioms, vstd::string::group_string_axioms;

/// How the agent starts one side-channel server.
#[derive(Debug)]
pub struct McpServerConfig {
    pub command: String,
    pub args: Vec<String>,
    pub env: Option<Vec<(String, String)>>,
}

/// The name under which the agent offers tool `tool` of server `server`.
pub open spec fn tool_name(server: Seq<char>, tool: Seq<char>) -> Seq<char> {
    "mcp__"@ + server + "__"@ + tool
}

/// The command line the agent is started with: line-delimited JSON both ways,
/// the side-channel configuration at `config_path`, permission prompts through
/// `permission_tool`, and reading and editing files through the side channel
/// in place of the agent's own tools.
pub open spec fn agent_args_spec(config_path: Seq<char>, permission_tool: Seq<char>) -> Seq<Seq<char>> {
    seq![
        "--input-format"@,
        "stream-json"@,
        "--output-format"@,
        "stream-json"@,
        "--print"@,
        "--verbose"@,
        "--mcp-config"@,
        config_path,
        "--permission-prompt-tool"@,
        permission_tool,
        "--allowedTools"@,
        "mcp__zed__Read,mcp__zed__Edit"@,
        "--disallowedTools"@,
        "Read,Edit"@,
    ]
}

/// `j` is an object that holds the members `env` lists, in order, each a string.
pub open spec fn env_encodes(env: Vec<(String, String)>, j: JsonValue) -> bool {
    &&& j is Object
    &&& j->Object_0.len() == env.len()
    &&& forall|i: int|
        0 <= i < env.len() ==> (#[trigger] j->Object_0[i]).0@ == env[i].0@ && j->Object_0[i].1 is Str
            && j->Object_0[i].1->Str_0@ == env[i].1@
}

/// `j` is the JSON form of server configuration `c`; no environment leaves
/// `env` out.
pub open spec fn server_config_encodes(c: McpServerConfig, j: JsonValue) -> bool {
    &&& j is Object
    &&& str_member(j, "command"@) == Some(c.command@)
    &&& texts_decode(member(j, "args"@), c.args)
    &&& match c.env {
        None => member(j, "env"@) is None,
        Some(e) => member(j, "env"@) matches Some(x) && env_encodes(e, x),
    }
}

/// The name under which the agent offers tool `tool` of server `server`:
/// `mcp__<server>__<tool>`.
pub fn permission_tool_name(server: &str, tool: &str) -> (r: String)
    ensures
        r@ == tool_name(server@, tool@),
{
    let mut out = String::new();
    out.append("mcp__");
    out.append(server);
    out.append("__");
    out.append(tool);
    proof {
        assert(out@ =~= tool_name(server@, tool@));
    }
    out
}

/// The command line the agent is started with.
pub fn agent_args(config_path: &str, permission_tool: &str) -> (r: Vec<String>)
    ensures
        r@.len() == agent_args_spec(config_path@, permission_tool@).len(),
        forall|i: int| 0 <= i < r@.len() ==> (#[trigger] r@[i])@ == agent_args_spec(config_path@, permission_tool@)[i],
{
    let mut v: Vec<String> = Vec::new();
    v.push("--input-format".to_string());
    v.push("stream-json".to_string());
    v.push("--output-format".to_string());
    v.push("stream-json".to_string());
    v.push("--print".to_string());
    v.push("--verbose".to_string());
    v.push("--mcp-config".to_string());
    v.push(config_path.to_string());
    v.push("--permission-prompt-tool".to_string());
    v.push(permission_tool.to_string());
    v.push("--allowedTools".to_string());
    v.push("mcp__zed__Read,mcp__zed__Edit".to_string());
    v.push("--disallowedTools".to_string());
    v.push("Read,Edit".to_string());
    v
}

impl McpServerConfig {
    /// The JSON form of this configuration.
    pub fn encode(&self) -> (r: JsonValue)
        ensures
            server_config_encodes(*self, r),
    {
        proof {
            reveal_strlit("command");
            reveal_strlit("args");
            reveal_strlit("env");
            assert("command"@.len() == 7);
            assert("args"@.len() == 4);
            assert("env"@.len() == 3);
        }
        let mut f: Vec<(String, JsonValue)> = Vec::new();
        push_member(&mut f, "command", JsonValue::Str(self.command.clone()));
        push_member(&mut f, "args", encode_texts(&self.args));
        if let Some(env) = &self.env {
            let mut e: Vec<(String, JsonValue)> = Vec::new();
            let mut i: usize = 0;
            while i < env.len()
                invariant
                    0 <= i <= env.len(),
                    e.len() == i,
                    forall|k: int|
                        0 <= k < i ==> (#[trigger] e[k]).0@ == env[k].0@ && e[k].1 is Str && e[k].1->Str_0@
                            == env[k].1@,
                decreases env.len() - i,
            {
                e.push((env[i].0.clone(), JsonValue::Str(env[i].1.clone())));
                i = i + 1;
            }
            push_member(&mut f, "env", JsonValue::Object(e));
        }
        JsonValue::Object(f)
    }
}

/// `j` is the side-channel configuration document: an object whose one
/// member, `mcpServers`, is an object whose one member, `name`, is the JSON
/// form of `server`.
pub open spec fn config_encodes(name: Seq<char>, server: McpServerConfig, j: JsonValue) -> bool {
    &&& j is Object
    &&& j->Object_0.len() == 1
    &&& j->Object_0[0].0@ == "mcpServers"@
    &&& j->Object_0[0].1 is Object
    &&& j->Object_0[0].1->Object_0.len() == 1
    &&& j->Object_0[0].1->Object_0[0].0@ == name
    &&& server_config_encodes(server, j->Object_0[0].1->Object_0[0].1)
}

/// The side-channel configuration file's document: one server `name`, under
/// `mcpServers`.
pub fn mcp_config_json(name: &str, server: &McpServerConfig) -> (r: JsonValue)
    ensures
        config_encodes(name@, *server, r),
{
    let mut servers: Vec<(String, JsonValue)> = Vec::new();
    push_member(&mut servers, name, server.encode());
    let mut top: Vec<(String, JsonValue)> = Vec::new();
    push_member(&mut top, "mcpServers", JsonValue::Object(servers));
    JsonValue::Object(top)
}

} // verus!
