use claude_bridge::content::{Content, ContentChunk};
use claude_bridge::json::{json_debug, json_text, parse_json, JsonValue};

fn doc(text: &str) -> JsonValue {
    parse_json(text).expect("valid JSON")
}

#[test]
fn test_deserialize_content_untagged_text() {
    let json = doc("\"Hello, world!\"");
    let content = Content::decode(&json).unwrap();
    match content {
        Content::UntaggedText(text) => assert_eq!(text, "Hello, world!"),
        _ => panic!("Expected UntaggedText variant"),
    }
}

#[test]
fn test_deserialize_content_chunks() {
    let json = doc(
        r#"[
            {"type": "text", "text": "Hello"},
            {"type": "tool_use", "id": "tool_123", "name": "calculator",
             "input": {"operation": "add", "a": 1, "b": 2}}
        ]"#,
    );
    let content = Content::decode(&json).unwrap();
    match content {
        Content::Chunks(chunks) => {
            assert_eq!(chunks.len(), 2);
            match &chunks[0] {
                ContentChunk::Text { text } => assert_eq!(text, "Hello"),
                _ => panic!("Expected Text chunk"),
            }
            match &chunks[1] {
                ContentChunk::ToolUse { id, name, input } => {
                    assert_eq!(id, "tool_123");
                    assert_eq!(name, "calculator");
                    assert_eq!(input.get("operation"), Some(&JsonValue::Str("add".to_string())));
                    assert_eq!(input.get("a"), Some(&JsonValue::Number("1".to_string())));
                    assert_eq!(input.get("b"), Some(&JsonValue::Number("2".to_string())));
                }
                _ => panic!("Expected ToolUse chunk"),
            }
        }
        _ => panic!("Expected Chunks variant"),
    }
}

#[test]
fn test_deserialize_tool_result_untagged_text() {
    let json = doc(r#"{"type": "tool_result", "content": "Result content", "tool_use_id": "tool_456"}"#);
    let chunk = ContentChunk::decode(&json).unwrap();
    match chunk {
        ContentChunk::ToolResult { content, tool_use_id } => {
            match content {
                Content::UntaggedText(text) => assert_eq!(text, "Result content"),
                _ => panic!("Expected UntaggedText content"),
            }
            assert_eq!(tool_use_id, "tool_456");
        }
        _ => panic!("Expected ToolResult variant"),
    }
}

#[test]
fn test_deserialize_tool_result_chunks() {
    let json = doc(
        r#"{
            "type": "tool_result",
            "content": [
                {"type": "text", "text": "Processing complete"},
                {"type": "text", "text": "Result: 42"}
            ],
            "tool_use_id": "tool_789"
        }"#,
    );
    let chunk = ContentChunk::decode(&json).unwrap();
    match chunk {
        ContentChunk::ToolResult { content, tool_use_id } => {
            match content {
                Content::Chunks(chunks) => {
                    assert_eq!(chunks.len(), 2);
                    match &chunks[0] {
                        ContentChunk::Text { text } => assert_eq!(text, "Processing complete"),
                        _ => panic!("Expected Text chunk"),
                    }
                    match &chunks[1] {
                        ContentChunk::Text { text } => assert_eq!(text, "Result: 42"),
                        _ => panic!("Expected Text chunk"),
                    }
                }
                _ => panic!("Expected Chunks content"),
            }
            assert_eq!(tool_use_id, "tool_789");
        }
        _ => panic!("Expected ToolResult variant"),
    }
}

#[test]
fn plain_string_iterates_to_one_text_chunk() {
    let content = Content::decode(&doc("\"Hello, world!\"")).unwrap();
    assert!(matches!(content, Content::UntaggedText(_)));
    let chunks = content.chunks();
    assert_eq!(chunks.len(), 1);
    match &chunks[0] {
        ContentChunk::Text { text } => assert_eq!(text, "Hello, world!"),
        _ => panic!("expected a text chunk"),
    }
}

#[test]
fn string_and_single_text_chunk_iterate_alike() {
    let plain = Content::decode(&doc("\"same\"")).unwrap();
    let listed = Content::decode(&doc(r#"[{"type":"text","text":"same"}]"#)).unwrap();
    assert!(matches!(plain, Content::UntaggedText(_)));
    assert!(matches!(listed, Content::Chunks(_)));
    let a = plain.chunks();
    let b = listed.chunks();
    assert_eq!(a.len(), 1);
    assert_eq!(b.len(), 1);
    match (&a[0], &b[0]) {
        (ContentChunk::Text { text: x }, ContentChunk::Text { text: y }) => assert_eq!(x, y),
        _ => panic!("expected text chunks"),
    }
}

#[test]
fn tool_use_round_trip_through_text() {
    let input = doc(r#"{"operation":"add","a":1,"b":[true,null,"x"]}"#);
    let chunk = ContentChunk::ToolUse { id: "tool_1".to_string(), name: "calc".to_string(), input };
    let text = json_text(&chunk.encode()).unwrap();
    let back = ContentChunk::decode(&doc(&text)).unwrap();
    match back {
        ContentChunk::ToolUse { id, name, input } => {
            assert_eq!(id, "tool_1");
            assert_eq!(name, "calc");
            assert_eq!(input.get("operation"), Some(&JsonValue::Str("add".to_string())));
            assert_eq!(input.get("a"), Some(&JsonValue::Number("1".to_string())));
            assert_eq!(
                input.get("b"),
                Some(&JsonValue::Array(vec![
                    JsonValue::Bool(true),
                    JsonValue::Null,
                    JsonValue::Str("x".to_string())
                ]))
            );
        }
        _ => panic!("expected a tool use"),
    }
}

#[test]
fn unit_kinds_and_unknown_kinds() {
    assert!(matches!(ContentChunk::decode(&doc(r#"{"type":"image"}"#)), Some(ContentChunk::Image)));
    assert!(matches!(
        ContentChunk::decode(&doc(r#"{"type":"redacted_thinking","data":"x"}"#)),
        Some(ContentChunk::RedactedThinking)
    ));
    assert!(ContentChunk::decode(&doc(r#"{"type":"video"}"#)).is_none());
    assert!(ContentChunk::decode(&doc(r#"{"type":"text"}"#)).is_none());
    assert!(matches!(ContentChunk::decode(&doc("\"loose\"")), Some(ContentChunk::UntaggedText(_))));
    assert!(Content::decode(&doc("42")).is_none());
    assert!(Content::decode(&doc(r#"[{"type":"text","text":"a"}, 7]"#)).is_none());
}

#[test]
fn content_renders_as_text() {
    let content = Content::decode(&doc(
        r#"[{"type":"text","text":"a"},"b",{"type":"image"},
            {"type":"tool_result","tool_use_id":"t","content":[{"type":"text","text":"c"}]}]"#,
    ))
    .unwrap();
    assert_eq!(content.to_text(), "ab\nImage\nc");
    assert_eq!(Content::UntaggedText("plain".to_string()).to_text(), "plain");
}

#[test]
fn encode_puts_type_first() {
    let chunk = ContentChunk::Text { text: "hi".to_string() };
    match chunk.encode() {
        JsonValue::Object(fields) => {
            assert_eq!(fields.len(), 2);
            assert_eq!(fields[0], ("type".to_string(), JsonValue::Str("text".to_string())));
            assert_eq!(fields[1], ("text".to_string(), JsonValue::Str("hi".to_string())));
        }
        _ => panic!("expected an object"),
    }
    assert_eq!(json_text(&ContentChunk::Image.encode()).unwrap(), r#"{"type":"image"}"#);
}

#[test]
fn parse_json_refuses_malformed_text() {
    assert!(parse_json("{not json").is_none());
    assert_eq!(parse_json("[1, 2.5]"), Some(JsonValue::Array(vec![
        JsonValue::Number("1".to_string()),
        JsonValue::Number("2.5".to_string()),
    ])));
    assert_eq!(json_text(&JsonValue::Str("q\"".to_string())).unwrap(), "\"q\\\"\"");
    assert_eq!(json_text(&JsonValue::Number("abc".to_string())), None);
    assert_eq!(json_text(&JsonValue::Array(vec![JsonValue::Number("1x".to_string())])), None);
}

#[test]
fn tool_use_renders_in_debug_form() {
    let chunk = ContentChunk::ToolUse {
        id: "t\"1".to_string(),
        name: "calc".to_string(),
        input: doc(r#"{"b":"x","a":1}"#),
    };
    let content = Content::Chunks(vec![ContentChunk::Text { text: "a".to_string() }, chunk]);
    assert_eq!(
        content.to_text(),
        "a\nToolUse { id: \"t\\\"1\", name: \"calc\", input: Object {\"a\": Number(1), \"b\": String(\"x\")} }\n"
    );
    let bad = ContentChunk::ToolUse {
        id: "i".to_string(),
        name: "n".to_string(),
        input: JsonValue::Number("abc".to_string()),
    };
    assert_eq!(Content::Chunks(vec![bad]).to_text(), "\nToolUse\n");
    assert_eq!(json_debug(&JsonValue::Array(vec![JsonValue::Null, JsonValue::Bool(true)])).unwrap(), "Array [Null, Bool(true)]");
}
