use claude_bridge::json::{json_text, JsonValue};
use claude_bridge::launch::{agent_args, mcp_config_json, permission_tool_name, McpServerConfig};
use claude_bridge::ClaudeCode;

#[test]
fn permission_tool_name_joins_parts() {
    assert_eq!(permission_tool_name("zed", "permission"), "mcp__zed__permission");
}

#[test]
fn agent_args_in_order() {
    let args = agent_args("/tmp/cfg.json", "mcp__zed__permission");
    assert_eq!(
        args,
        vec![
            "--input-format",
            "stream-json",
            "--output-format",
            "stream-json",
            "--print",
            "--verbose",
            "--mcp-config",
            "/tmp/cfg.json",
            "--permission-prompt-tool",
            "mcp__zed__permission",
            "--allowedTools",
            "mcp__zed__Read,mcp__zed__Edit",
            "--disallowedTools",
            "Read,Edit",
        ]
    );
}

#[test]
fn config_document_shape() {
    let server = McpServerConfig {
        command: "/bin/zed".to_string(),
        args: vec!["--mcp".to_string()],
        env: None,
    };
    let doc = mcp_config_json("zed", &server);
    assert_eq!(json_text(&doc).unwrap(), r#"{"mcpServers":{"zed":{"args":["--mcp"],"command":"/bin/zed"}}}"#);
    let with_env = McpServerConfig {
        command: "c".to_string(),
        args: vec![],
        env: Some(vec![("K".to_string(), "V".to_string())]),
    };
    let doc = mcp_config_json("s", &with_env);
    let entry = doc.get("mcpServers").unwrap().get("s").unwrap();
    assert_eq!(
        entry.get("env"),
        Some(&JsonValue::Object(vec![("K".to_string(), JsonValue::Str("V".to_string()))]))
    );
}

#[test]
fn agent_identity() {
    let agent = ClaudeCode;
    assert_eq!(agent.empty_state_message(), "");
    assert!(!agent.supports_always_allow());
}
