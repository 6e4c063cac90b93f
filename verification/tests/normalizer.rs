use nixacp_gateway::ollama::types::{OllamaFunction, OllamaMessageContent, OllamaToolCall};
use nixacp_gateway::ports::llm_backend::BackendError;
use nixacp_gateway::tools::normalizer::{
    looks_like_deepseek_tool_call, parse_deepseek_markdown, parse_qwen_xml, parse_tool_call_json,
    ToolCallNormalizer,
};

fn json(text: &str) -> serde_json::Value {
    serde_json::from_str(text).unwrap()
}

fn plain_msg(content: &str) -> OllamaMessageContent {
    OllamaMessageContent { role: "assistant".to_owned(), content: content.to_owned(), tool_calls: None }
}

fn structured_msg(calls: Vec<OllamaToolCall>) -> OllamaMessageContent {
    OllamaMessageContent { role: "assistant".to_owned(), content: String::new(), tool_calls: Some(calls) }
}

fn call(name: &str, args: &str) -> OllamaToolCall {
    OllamaToolCall { function: OllamaFunction { name: name.to_owned(), arguments: json(args) } }
}

#[test]
fn structured_single_tool_call() {
    let msg = structured_msg(vec![call("file_read", r#"{"path": "src/main.rs"}"#)]);
    let calls = ToolCallNormalizer::normalize(&msg).unwrap().unwrap();
    assert_eq!(calls.len(), 1);
    assert_eq!(calls[0].function.name, "file_read");
    let args: serde_json::Value = serde_json::from_str(&calls[0].function.arguments).unwrap();
    assert_eq!(args["path"], "src/main.rs");
}

#[test]
fn structured_multiple_tool_calls() {
    let msg = structured_msg(vec![
        call("file_read", r#"{"path": "a.rs"}"#),
        call("search", r#"{"query": "async fn"}"#),
    ]);
    let calls = ToolCallNormalizer::normalize(&msg).unwrap().unwrap();
    assert_eq!(calls.len(), 2);
    assert_eq!(calls[0].function.name, "file_read");
    assert_eq!(calls[1].function.name, "search");
}

#[test]
fn structured_empty_tool_calls_falls_through_to_none() {
    let msg = OllamaMessageContent {
        role: "assistant".to_owned(),
        content: "Hello!".to_owned(),
        tool_calls: Some(vec![]),
    };
    let result = ToolCallNormalizer::normalize(&msg).unwrap();
    assert!(result.is_none());
}

#[test]
fn structured_tool_call_ids_are_unique() {
    let msg = structured_msg(vec![call("f1", "{}"), call("f2", "{}")]);
    let calls = ToolCallNormalizer::normalize(&msg).unwrap().unwrap();
    assert_ne!(calls[0].id, calls[1].id, "each call must get a unique ID");
}

#[test]
fn qwen_xml_single_call() {
    let content = r#"<tool_call>{"name":"file_read","arguments":{"path":"src/lib.rs"}}</tool_call>"#;
    let msg = plain_msg(content);
    let calls = ToolCallNormalizer::normalize(&msg).unwrap().unwrap();
    assert_eq!(calls.len(), 1);
    assert_eq!(calls[0].function.name, "file_read");
    let args: serde_json::Value = serde_json::from_str(&calls[0].function.arguments).unwrap();
    assert_eq!(args["path"], "src/lib.rs");
}

#[test]
fn qwen_xml_multiple_calls() {
    let content = r#"<tool_call>{"name":"file_read","arguments":{"path":"a.rs"}}</tool_call><tool_call>{"name":"search","arguments":{"query":"todo"}}</tool_call>"#;
    let msg = plain_msg(content);
    let calls = ToolCallNormalizer::normalize(&msg).unwrap().unwrap();
    assert_eq!(calls.len(), 2);
    assert_eq!(calls[0].function.name, "file_read");
    assert_eq!(calls[1].function.name, "search");
}

#[test]
fn qwen_xml_arguments_as_string() {
    let content = r#"<tool_call>{"name":"file_read","arguments":"{\"path\":\"a.rs\"}"}</tool_call>"#;
    let msg = plain_msg(content);
    let calls = ToolCallNormalizer::normalize(&msg).unwrap().unwrap();
    assert_eq!(calls.len(), 1);
    assert!(calls[0].function.arguments.contains("path"));
}

#[test]
fn qwen_xml_unclosed_tag_returns_error() {
    let content = r#"<tool_call>{"name":"file_read","arguments":{}}"#;
    let msg = plain_msg(content);
    let err = ToolCallNormalizer::normalize(&msg).unwrap_err();
    assert!(matches!(err, BackendError::StreamParse(_)));
}

#[test]
fn qwen_xml_invalid_json_inside_tag_returns_error() {
    let content = "<tool_call>not json at all</tool_call>";
    let msg = plain_msg(content);
    let err = ToolCallNormalizer::normalize(&msg).unwrap_err();
    assert!(matches!(err, BackendError::StreamParse(_)));
}

#[test]
fn qwen_xml_missing_name_field_returns_error() {
    let content = r#"<tool_call>{"arguments":{"path":"a.rs"}}</tool_call>"#;
    let msg = plain_msg(content);
    let err = ToolCallNormalizer::normalize(&msg).unwrap_err();
    assert!(matches!(err, BackendError::StreamParse(_)));
}

#[test]
fn deepseek_markdown_single_call() {
    let content = "```json\n{\"name\":\"search\",\"arguments\":{\"query\":\"async fn\"}}\n```";
    let msg = plain_msg(content);
    let calls = ToolCallNormalizer::normalize(&msg).unwrap().unwrap();
    assert_eq!(calls.len(), 1);
    assert_eq!(calls[0].function.name, "search");
    let args: serde_json::Value = serde_json::from_str(&calls[0].function.arguments).unwrap();
    assert_eq!(args["query"], "async fn");
}

#[test]
fn deepseek_markdown_multiple_calls() {
    let content = "```json\n{\"name\":\"file_read\",\"arguments\":{\"path\":\"a.rs\"}}\n```\n```json\n{\"name\":\"search\",\"arguments\":{\"query\":\"TODO\"}}\n```";
    let msg = plain_msg(content);
    let calls = ToolCallNormalizer::normalize(&msg).unwrap().unwrap();
    assert_eq!(calls.len(), 2);
    assert_eq!(calls[0].function.name, "file_read");
    assert_eq!(calls[1].function.name, "search");
}

#[test]
fn deepseek_markdown_fence_without_tool_fields_is_ignored() {
    let content = "```json\n{\"foo\":\"bar\"}\n```";
    let msg = plain_msg(content);
    let result = ToolCallNormalizer::normalize(&msg).unwrap();
    assert!(result.is_none());
}

#[test]
fn deepseek_markdown_unclosed_fence_returns_error() {
    let content = "```json\n{\"name\":\"search\",\"arguments\":{\"query\":\"x\"}}";
    let msg = plain_msg(content);
    let err = ToolCallNormalizer::normalize(&msg).unwrap_err();
    assert!(matches!(err, BackendError::StreamParse(_)));
}

#[test]
fn plain_text_returns_none() {
    let msg = plain_msg("Hello! How can I help you today?");
    let result = ToolCallNormalizer::normalize(&msg).unwrap();
    assert!(result.is_none());
}

#[test]
fn empty_content_no_structured_calls_returns_none() {
    let msg = plain_msg("");
    let result = ToolCallNormalizer::normalize(&msg).unwrap();
    assert!(result.is_none());
}

#[test]
fn structured_takes_priority_over_xml_in_content() {
    let msg = OllamaMessageContent {
        role: "assistant".to_owned(),
        content: "<tool_call>{\"name\":\"xml_fn\",\"arguments\":{}}</tool_call>".to_owned(),
        tool_calls: Some(vec![call("structured_fn", "{}")]),
    };
    let calls = ToolCallNormalizer::normalize(&msg).unwrap().unwrap();
    assert_eq!(calls[0].function.name, "structured_fn");
}

#[test]
fn call_ids_have_the_generated_form() {
    let c = parse_tool_call_json(r#"{"name":"x","arguments":"{}"}"#).unwrap();
    assert_eq!(c.id.len(), 37);
    assert!(c.id.starts_with("call_"));
    assert!(c.id[5..].chars().all(|ch| ch.is_ascii_hexdigit() && !ch.is_ascii_uppercase()));
    assert_eq!(c.kind, "function");
    assert_eq!(c.function.arguments, "{}");
}

#[test]
fn tool_call_json_errors() {
    match parse_tool_call_json("nope") {
        Err(BackendError::StreamParse(m)) => assert!(m.starts_with("invalid tool call JSON: ")),
        other => panic!("unexpected: {other:?}"),
    }
    match parse_tool_call_json(r#"{"arguments":{}}"#) {
        Err(BackendError::StreamParse(m)) => assert_eq!(m, "tool call missing 'name' field"),
        other => panic!("unexpected: {other:?}"),
    }
}

#[test]
fn tool_call_json_missing_or_numeric_arguments() {
    assert_eq!(parse_tool_call_json(r#"{"name":"a"}"#).unwrap().function.arguments, "null");
    assert_eq!(parse_tool_call_json(r#"{"name":"a","arguments":42}"#).unwrap().function.arguments, "42");
}

#[test]
fn xml_and_fence_parsers_directly() {
    assert!(parse_qwen_xml("no tags").unwrap().is_empty());
    match parse_qwen_xml("<tool_call>{\"name\":\"a\"}") {
        Err(BackendError::StreamParse(m)) => assert_eq!(m, "unclosed <tool_call> tag"),
        other => panic!("unexpected: {other:?}"),
    }
    match parse_deepseek_markdown("```json\n{}") {
        Err(BackendError::StreamParse(m)) => assert_eq!(m, "unclosed markdown fence"),
        other => panic!("unexpected: {other:?}"),
    }
    assert!(looks_like_deepseek_tool_call("```json {\"name\": 1, \"arguments\": 2}"));
    assert!(!looks_like_deepseek_tool_call("```json {\"name\": 1}"));
}

#[test]
fn function_name_object_is_a_tool_call() {
    let msg = plain_msg(r#"  {"function_name":"read_file","function_arg":{"path":"a.rs"}}  "#);
    let calls = ToolCallNormalizer::normalize(&msg).unwrap().unwrap();
    assert_eq!(calls.len(), 1);
    assert_eq!(calls[0].kind, "function");
    assert_eq!(calls[0].function.name, "read_file");
    assert_eq!(json(&calls[0].function.arguments), json(r#"{"path":"a.rs"}"#));
    assert!(calls[0].id.starts_with("call_"));
}

#[test]
fn function_name_object_with_text_or_missing_arguments() {
    let calls = ToolCallNormalizer::normalize(&plain_msg(r#"{"function_name":"list_directory","function_arg":"{}"}"#))
        .unwrap()
        .unwrap();
    assert_eq!(calls[0].function.arguments, "{}");
    let calls = ToolCallNormalizer::normalize(&plain_msg(r#"{"function_name":"list_directory"}"#)).unwrap().unwrap();
    assert_eq!(calls[0].function.arguments, "null");
}

#[test]
fn json_without_function_name_is_plain_text() {
    assert!(ToolCallNormalizer::normalize(&plain_msg(r#"{"answer": 42}"#)).unwrap().is_none());
    assert!(ToolCallNormalizer::normalize(&plain_msg(r#"{"function_name": 7}"#)).unwrap().is_none());
    assert!(ToolCallNormalizer::normalize(&plain_msg("function_name")).unwrap().is_none());
}

#[test]
fn structured_arguments_are_written_as_json() {
    let msg = structured_msg(vec![call("a", r#"{"x":[1,2],"y":null}"#), call("b", "3")]);
    let calls = ToolCallNormalizer::normalize(&msg).unwrap().unwrap();
    assert_eq!(calls.len(), 2);
    assert_eq!(calls[0].function.arguments, serde_json::to_string(&json(r#"{"x":[1,2],"y":null}"#)).unwrap());
    assert_eq!(calls[1].function.arguments, "3");
    assert_eq!(calls[1].function.name, "b");
}
