use claude_bridge::content::Content;
use claude_bridge::json::{json_text, parse_json, JsonValue};
use claude_bridge::message::{
    McpServer, Message, PermissionMode, ResultErrorType, Role, SdkMessage, Usage,
};

fn decode(text: &str) -> Option<SdkMessage> {
    SdkMessage::decode(&parse_json(text).expect("valid JSON"))
}

#[test]
fn user_message_with_optional_fields() {
    let m = decode(
        r#"{"type":"user","message":{"role":"user","content":"hi","id":null,"model":"m1",
            "usage":{"input_tokens":3,"cache_creation_input_tokens":0,"cache_read_input_tokens":1,
                     "output_tokens":5,"service_tier":"standard"}}}"#,
    )
    .unwrap();
    match m {
        SdkMessage::User { message, session_id } => {
            assert_eq!(session_id, None);
            assert_eq!(message.role, Role::User);
            assert!(matches!(message.content, Content::UntaggedText(ref t) if t == "hi"));
            assert_eq!(message.id, None);
            assert_eq!(message.model.as_deref(), Some("m1"));
            let usage = message.usage.unwrap();
            assert_eq!(usage.input_tokens, "3");
            assert_eq!(usage.output_tokens, "5");
            assert_eq!(usage.service_tier, "standard");
        }
        other => panic!("unexpected {:?}", other),
    }
}

#[test]
fn envelopes_that_do_not_decode() {
    assert!(decode(r#"{"type":"user"}"#).is_none());
    assert!(decode(r#"{"type":"user","message":{"role":"robot","content":"x"}}"#).is_none());
    assert!(decode(r#"{"type":"user","message":{"role":"user","content":"x","id":3}}"#).is_none());
    assert!(decode(r#"{"type":"result","subtype":"success"}"#).is_none());
    assert!(decode(
        r#"{"type":"result","subtype":"gone","duration_ms":1,"duration_api_ms":1,"is_error":false,"num_turns":1,"session_id":"s","total_cost_usd":0}"#
    )
    .is_none());
    assert!(decode(r#"{"message":{"role":"user","content":"x"}}"#).is_none());
    assert!(decode(r#""text""#).is_none());
}

#[test]
fn result_envelope_fields() {
    let m = decode(
        r#"{"type":"result","subtype":"error_during_execution","duration_ms":1.5,"duration_api_ms":2,
            "is_error":true,"num_turns":4,"result":"boom","session_id":"abc","total_cost_usd":0.25}"#,
    )
    .unwrap();
    match m {
        SdkMessage::Result { subtype, duration_ms, is_error, num_turns, result, session_id, .. } => {
            assert_eq!(subtype, ResultErrorType::ErrorDuringExecution);
            assert_eq!(subtype.name(), "error_during_execution");
            assert_eq!(duration_ms, "1.5");
            assert!(is_error);
            assert_eq!(num_turns, "4");
            assert_eq!(result.as_deref(), Some("boom"));
            assert_eq!(session_id, "abc");
        }
        other => panic!("unexpected {:?}", other),
    }
}

#[test]
fn system_envelope_round_trip() {
    let m = SdkMessage::System {
        cwd: "/w".to_string(),
        session_id: "s1".to_string(),
        tools: vec!["Read".to_string(), "Edit".to_string()],
        model: "m".to_string(),
        mcp_servers: vec![McpServer { name: "zed".to_string(), status: "connected".to_string() }],
        api_key_source: "none".to_string(),
        permission_mode: PermissionMode::AcceptEdits,
    };
    let text = json_text(&m.encode()).unwrap();
    assert!(text.contains(r#""permissionMode":"acceptEdits""#));
    assert!(text.contains(r#""apiKeySource":"none""#));
    match decode(&text).unwrap() {
        SdkMessage::System { tools, mcp_servers, permission_mode, .. } => {
            assert_eq!(tools, vec!["Read".to_string(), "Edit".to_string()]);
            assert_eq!(mcp_servers.len(), 1);
            assert_eq!(mcp_servers[0].status, "connected");
            assert_eq!(permission_mode, PermissionMode::AcceptEdits);
        }
        other => panic!("unexpected {:?}", other),
    }
}

#[test]
fn assistant_message_encoding_leaves_out_absent_fields() {
    let m = SdkMessage::Assistant {
        message: Message {
            role: Role::Assistant,
            content: Content::UntaggedText("ok".to_string()),
            id: Some("msg_1".to_string()),
            model: None,
            stop_reason: None,
            stop_sequence: None,
            usage: Some(Usage {
                input_tokens: "1".to_string(),
                cache_creation_input_tokens: "0".to_string(),
                cache_read_input_tokens: "0".to_string(),
                output_tokens: "2".to_string(),
                service_tier: "standard".to_string(),
            }),
        },
        session_id: Some("s".to_string()),
    };
    let j = m.encode();
    assert_eq!(j.get("type"), Some(&JsonValue::Str("assistant".to_string())));
    assert_eq!(j.get("session_id"), Some(&JsonValue::Str("s".to_string())));
    let inner = j.get("message").unwrap();
    assert_eq!(inner.get("id"), Some(&JsonValue::Str("msg_1".to_string())));
    assert_eq!(inner.get("model"), None);
    assert_eq!(inner.get("usage").unwrap().get("output_tokens"), Some(&JsonValue::Number("2".to_string())));
    match decode(&json_text(&j).unwrap()).unwrap() {
        SdkMessage::Assistant { message, session_id } => {
            assert_eq!(session_id.as_deref(), Some("s"));
            assert_eq!(message.id.as_deref(), Some("msg_1"));
            assert_eq!(message.usage.unwrap().input_tokens, "1");
        }
        other => panic!("unexpected {:?}", other),
    }
}
