use claude_bridge::connection::{
    classify_line, failure_text, outgoing_line, read_line, user_message_body, AgentRequest, ChunkAction,
    ConnectionState, LineOutcome, MessagePlan, RequestPlan, TurnOutcome, UserMessageChunk,
};
use claude_bridge::content::{Content, ContentChunk};
use claude_bridge::json::{parse_json, JsonValue};
use claude_bridge::message::{ResultErrorType, SdkMessage};

fn envelope(text: &str) -> SdkMessage {
    match read_line(text.len() + 1, text) {
        LineOutcome::Deliver(m) => m,
        other => panic!("expected an envelope, got {:?}", other),
    }
}

fn result_line(is_error: bool, subtype: &str) -> String {
    format!(
        r#"{{"type":"result","subtype":"{}","duration_ms":12.5,"duration_api_ms":10,"is_error":{},"num_turns":1,"session_id":"s","total_cost_usd":0.01}}"#,
        subtype, is_error
    )
}

fn send_turn(state: &mut ConnectionState, text: &str) -> RequestPlan {
    state.plan_request(AgentRequest::SendUserMessage {
        chunks: vec![UserMessageChunk::Text { text: text.to_string() }],
    })
}

#[test]
fn successful_turn_resolves_pending_request() {
    let mut state = ConnectionState::new();
    match send_turn(&mut state, "hi") {
        RequestPlan::SendTurn { message, orphaned } => {
            assert!(!orphaned);
            assert!(matches!(message, SdkMessage::User { .. }));
        }
        other => panic!("unexpected plan {:?}", other),
    }
    assert!(state.turn_pending());
    let plan = state.plan_message(envelope(&result_line(false, "success")));
    assert!(matches!(plan, MessagePlan::EndTurn(Some(TurnOutcome::Completed))));
    assert!(!state.turn_pending());
}

#[test]
fn failed_turn_reports_subtype() {
    let mut state = ConnectionState::new();
    send_turn(&mut state, "hi");
    let plan = state.plan_message(envelope(&result_line(true, "error_max_turns")));
    match plan {
        MessagePlan::EndTurn(Some(TurnOutcome::Failed(subtype))) => {
            assert_eq!(subtype, ResultErrorType::ErrorMaxTurns);
            assert!(failure_text(subtype).contains("error_max_turns"));
            assert_eq!(failure_text(subtype), "Error: error_max_turns");
        }
        other => panic!("unexpected plan {:?}", other),
    }
}

#[test]
fn result_without_turn_is_no_op() {
    let mut state = ConnectionState::new();
    let plan = state.plan_message(envelope(&result_line(false, "success")));
    assert!(matches!(plan, MessagePlan::EndTurn(None)));
    send_turn(&mut state, "x");
    assert!(matches!(
        state.plan_message(envelope(&result_line(false, "success"))),
        MessagePlan::EndTurn(Some(TurnOutcome::Completed))
    ));
    assert!(matches!(state.plan_message(envelope(&result_line(true, "success"))), MessagePlan::EndTurn(None)));
}

#[test]
fn second_send_orphans_first_turn() {
    let mut state = ConnectionState::new();
    send_turn(&mut state, "one");
    match send_turn(&mut state, "two") {
        RequestPlan::SendTurn { orphaned, .. } => assert!(orphaned),
        other => panic!("unexpected plan {:?}", other),
    }
}

#[test]
fn other_requests() {
    let mut state = ConnectionState::new();
    assert!(matches!(
        state.plan_request(AgentRequest::Initialize),
        RequestPlan::Initialized { is_authenticated: true }
    ));
    assert!(matches!(state.plan_request(AgentRequest::Authenticate), RequestPlan::Unsupported));
    assert!(matches!(state.plan_request(AgentRequest::CancelSendMessage), RequestPlan::Acknowledge));
    assert!(!state.turn_pending());
}

#[test]
fn user_body_joins_text_and_paths() {
    let chunks = vec![
        UserMessageChunk::Text { text: "look at ".to_string() },
        UserMessageChunk::Path { path: "src/main.rs".to_string() },
        UserMessageChunk::Text { text: " please".to_string() },
    ];
    assert_eq!(user_message_body(&chunks), "look at @src/main.rs please");
    assert_eq!(user_message_body(&vec![]), "");
}

#[test]
fn tool_use_then_result_updates_map() {
    let mut state = ConnectionState::new();
    let tool_use = ContentChunk::ToolUse {
        id: "toolu_1".to_string(),
        name: "Read".to_string(),
        input: parse_json(r#"{"path":"a.rs"}"#).unwrap(),
    };
    match state.plan_chunk(tool_use) {
        ChunkAction::PushToolCall { tool_use_id, name, .. } => {
            assert_eq!(tool_use_id, "toolu_1");
            assert_eq!(name, "Read");
            state.record_tool_call(tool_use_id, 7);
        }
        other => panic!("unexpected action {:?}", other),
    }
    assert!(state.has_tool_call("toolu_1"));
    let result = ContentChunk::ToolResult {
        content: Content::UntaggedText("done".to_string()),
        tool_use_id: "toolu_1".to_string(),
    };
    match state.plan_chunk(result) {
        ChunkAction::FinishToolCall { call_id, markdown } => {
            assert_eq!(call_id, 7);
            assert_eq!(markdown, "done");
        }
        other => panic!("unexpected action {:?}", other),
    }
    assert!(!state.has_tool_call("toolu_1"));
}

#[test]
fn unknown_tool_result_is_dropped() {
    let mut state = ConnectionState::new();
    state.record_tool_call("known".to_string(), 1);
    let result = ContentChunk::ToolResult {
        content: Content::UntaggedText("x".to_string()),
        tool_use_id: "never".to_string(),
    };
    assert!(matches!(state.plan_chunk(result), ChunkAction::Drop));
    assert!(state.has_tool_call("known"));
    assert!(!state.has_tool_call("never"));
}

#[test]
fn text_and_unsupported_chunks_stream() {
    let mut state = ConnectionState::new();
    match state.plan_chunk(ContentChunk::Text { text: "a".to_string() }) {
        ChunkAction::StreamText(t) => assert_eq!(t, "a"),
        other => panic!("unexpected action {:?}", other),
    }
    match state.plan_chunk(ContentChunk::Thinking) {
        ChunkAction::StreamText(t) => assert_eq!(t, "Unsupported content: Thinking"),
        other => panic!("unexpected action {:?}", other),
    }
}

#[test]
fn assistant_message_yields_chunks_in_order() {
    let mut state = ConnectionState::new();
    let m = envelope(
        r#"{"type":"assistant","message":{"role":"assistant","content":[{"type":"text","text":"x"},{"type":"text","text":"y"}]},"session_id":"s"}"#,
    );
    match state.plan_message(m) {
        MessagePlan::Chunks(chunks) => {
            assert_eq!(chunks.len(), 2);
            assert!(matches!(&chunks[1], ContentChunk::Text { text } if text == "y"));
        }
        other => panic!("unexpected plan {:?}", other),
    }
}

#[test]
fn system_envelope_does_nothing() {
    let mut state = ConnectionState::new();
    let m = envelope(
        r#"{"type":"system","cwd":"/w","session_id":"s","tools":["Read"],"model":"m","mcp_servers":[{"name":"zed","status":"connected"}],"apiKeySource":"none","permissionMode":"default"}"#,
    );
    assert!(matches!(state.plan_message(m), MessagePlan::Nothing));
}

#[test]
fn malformed_line_does_not_stop_pump() {
    let bad = "{\"type\": ";
    assert!(matches!(read_line(bad.len(), bad), LineOutcome::Skip));
    let unknown = r#"{"type":"other"}"#;
    assert!(matches!(read_line(unknown.len(), unknown), LineOutcome::Skip));
    let good = result_line(false, "success");
    assert!(matches!(read_line(good.len(), &good), LineOutcome::Deliver(SdkMessage::Result { .. })));
    assert!(matches!(read_line(0, ""), LineOutcome::Closed));
    assert!(matches!(classify_line(3, None), LineOutcome::Skip));
    assert!(matches!(classify_line(0, Some(JsonValue::Null)), LineOutcome::Closed));
}

#[test]
fn outgoing_line_is_one_json_line() {
    let mut state = ConnectionState::new();
    let message = match send_turn(&mut state, "hello") {
        RequestPlan::SendTurn { message, .. } => message,
        other => panic!("unexpected plan {:?}", other),
    };
    let line = outgoing_line(&message).unwrap();
    assert!(line.ends_with('\n'));
    assert_eq!(line.matches('\n').count(), 1);
    let back = parse_json(line.trim_end()).unwrap();
    assert_eq!(back.get("type"), Some(&JsonValue::Str("user".to_string())));
    let inner = back.get("message").unwrap();
    assert_eq!(inner.get("role"), Some(&JsonValue::Str("user".to_string())));
    assert_eq!(inner.get("content"), Some(&JsonValue::Str("hello".to_string())));
    assert_eq!(inner.get("id"), None);
    assert_eq!(back.get("session_id"), None);
}
