use nixacp_gateway::api::acp::{acp_method, method_not_found_message, prompt_text, AcpMethod};
use nixacp_gateway::api::chat::{
    build_messages, build_tool_definitions, chat_route, plain_completion, stream_event,
    tool_loop_completion, word_count, ChatRoute, StreamEvent,
};
use nixacp_gateway::api::error::AppError;
use nixacp_gateway::api::models::list_models;
use nixacp_gateway::api::request_log::{is_sensitive_header, loggable_headers, request_line, response_line};
use nixacp_gateway::api::responses::{
    extract_text, input_to_messages, needs_completion, response_events, ItemContent, ResponsesEvent,
    ResponsesInput, ResponsesInputItem, TypedBlock,
};
use nixacp_gateway::api::types::{
    ApiFunctionCall, ApiFunctionDefinition, ApiToolCall, ApiToolDefinition, ChatMessage, ContentBlock,
    MessageContent,
};
use nixacp_gateway::config::{default_bash_allowlist, default_log_level, BashConfig, OllamaConfig, OllamaModelConfig};
use nixacp_gateway::entities::conversation::ConversationResponse;
use nixacp_gateway::entities::message::{Message, Role};
use nixacp_gateway::entities::model::ModelId;
use nixacp_gateway::entities::stream_chunk::StreamChunk;
use nixacp_gateway::entities::tool::ToolCall;
use nixacp_gateway::ports::llm_backend::BackendError;

fn text_msg(role: &str, content: &str) -> ChatMessage {
    ChatMessage {
        role: role.into(),
        content: MessageContent::Text(content.into()),
        tool_call_id: None,
        tool_calls: None,
    }
}

#[test]
fn build_messages_empty_returns_error() {
    assert!(build_messages(&vec![]).is_err());
}

#[test]
fn build_messages_system_role() {
    let msgs = build_messages(&vec![text_msg("system", "you are helpful")]).unwrap();
    assert_eq!(msgs[0].role, Role::System);
}

#[test]
fn build_messages_tool_role_maps_tool_call_id() {
    let mut tool = text_msg("tool", "file contents");
    tool.tool_call_id = Some("call_abc".into());
    let msgs = build_messages(&vec![text_msg("user", "hello"), tool]).unwrap();
    assert_eq!(msgs[1].role, Role::Tool);
    assert_eq!(msgs[1].tool_call_id.as_deref(), Some("call_abc"));
    assert_eq!(msgs[1].text_content(), Some("file contents"));
}

#[test]
fn build_messages_assistant_with_tool_calls() {
    let mut m = text_msg("assistant", "");
    m.tool_calls = Some(vec![ApiToolCall {
        id: "call_1".into(),
        kind: "function".into(),
        function: ApiFunctionCall { name: "read_file".into(), arguments: r#"{"path":"a.rs"}"#.into() },
    }]);
    let msgs = build_messages(&vec![m]).unwrap();
    assert_eq!(msgs[0].role, Role::Assistant);
    let tool_calls = msgs[0].tool_calls.as_ref().unwrap();
    assert_eq!(tool_calls.len(), 1);
    assert_eq!(tool_calls[0].id, "call_1");
    assert_eq!(tool_calls[0].function.name, "read_file");
}

#[test]
fn build_tool_definitions_empty_vec() {
    let defs = build_tool_definitions(&vec![]);
    assert!(defs.is_empty());
}

#[test]
fn build_tool_definitions_maps_fields() {
    let api_tool = ApiToolDefinition {
        kind: "function".into(),
        function: ApiFunctionDefinition {
            name: "read_file".into(),
            description: "Read a file".into(),
            parameters: serde_json::from_str(r#"{"type":"object","properties":{"path":{"type":"string"}}}"#).unwrap(),
        },
    };
    let defs = build_tool_definitions(&vec![api_tool]);
    assert_eq!(defs.len(), 1);
    assert_eq!(defs[0].kind, "function");
    assert_eq!(defs[0].function.name, "read_file");
    assert_eq!(defs[0].function.description, "Read a file");
    assert_eq!(defs[0].function.parameters["type"], "object");
}

#[test]
fn unknown_roles_become_user_turns() {
    let msgs = build_messages(&vec![text_msg("developer", "x")]).unwrap();
    assert_eq!(msgs[0].role, Role::User);
}

#[test]
fn content_blocks_join_text_parts() {
    let c = MessageContent::Blocks(vec![
        ContentBlock { kind: "text".into(), text: "a".into() },
        ContentBlock { kind: "image".into(), text: "ignored".into() },
        ContentBlock { kind: "text".into(), text: "b".into() },
    ]);
    assert_eq!(c.into_text(), "a\nb");
    let m = ChatMessage {
        role: "user".into(),
        content: MessageContent::Blocks(vec![ContentBlock { kind: "text".into(), text: "only".into() }]),
        tool_call_id: None,
        tool_calls: None,
    };
    assert_eq!(m.content_text(), "only");
    assert_eq!(MessageContent::default().into_text(), "");
}

#[test]
fn routes() {
    assert_eq!(chat_route(true, Some(false)), ChatRoute::ToolLoop);
    assert_eq!(chat_route(false, None), ChatRoute::Stream);
    assert_eq!(chat_route(false, Some(true)), ChatRoute::Stream);
    assert_eq!(chat_route(false, Some(false)), ChatRoute::Complete);
}

fn response(content: &str, calls: Option<Vec<ToolCall>>) -> ConversationResponse {
    ConversationResponse {
        id: 0xabc,
        model: ModelId::new("m"),
        content: content.into(),
        prompt_tokens: 7,
        completion_tokens: 0,
        tool_calls: calls,
    }
}

#[test]
fn completions_are_shaped() {
    let r = plain_completion(response("three small words", None), "m".into());
    assert_eq!(r.id, "chatcmpl-00000000000000000000000000000abc");
    assert_eq!(r.object, "chat.completion");
    assert_eq!(r.choices[0].finish_reason, "stop");
    assert_eq!(r.usage.completion_tokens, 3);
    assert_eq!(r.usage.total_tokens, 10);
    let t = tool_loop_completion(response("", Some(vec![ToolCall::new("c1", "f", "{}")])), "m".into());
    assert_eq!(t.choices[0].finish_reason, "tool_calls");
    let calls = t.choices[0].message.tool_calls.as_ref().unwrap();
    assert_eq!(calls[0].id, "c1");
    assert_eq!(word_count("  a b\tc\n"), 3);
}

#[test]
fn stream_events() {
    match stream_event("id", "m", Ok(StreamChunk::delta("hi"))) {
        StreamEvent::Chunk(c) => assert_eq!(c.choices[0].delta.content.as_deref(), Some("hi")),
        StreamEvent::Text(_) => panic!("expected chunk"),
    }
    match stream_event("id", "m", Ok(StreamChunk::stop())) {
        StreamEvent::Chunk(c) => assert_eq!(c.choices[0].finish_reason.as_deref(), Some("stop")),
        StreamEvent::Text(_) => panic!("expected chunk"),
    }
    match stream_event("id", "m", Err(BackendError::Timeout)) {
        StreamEvent::Text(t) => assert_eq!(t, "[error] timeout"),
        StreamEvent::Chunk(_) => panic!("expected text"),
    }
}

#[test]
fn app_errors() {
    let e = AppError::BadRequest("messages must not be empty".into());
    assert_eq!(e.status_code(), 400);
    assert_eq!(e.response_message(), "messages must not be empty");
    let b = AppError::Backend(BackendError::Timeout);
    assert_eq!(b.status_code(), 502);
    assert_eq!(b.to_string(), "backend error: timeout");
    assert_eq!(AppError::Internal("x".into()).status_code(), 500);
}

fn item(kind: &str) -> ResponsesInputItem {
    ResponsesInputItem {
        kind: kind.into(),
        role: String::new(),
        content: ItemContent::Other,
        call_id: None,
        output: None,
        name: None,
        arguments: None,
        id: None,
    }
}

#[test]
fn responses_input_becomes_turns() {
    let mut sys = item("message");
    sys.role = "system".into();
    sys.content = ItemContent::Text("be brief".into());
    let mut call = item("function_call");
    call.name = Some("read_file".into());
    call.id = Some("fc1".into());
    let mut out = item("function_call_output");
    out.call_id = Some("fc1".into());
    out.output = Some("data".into());
    let msgs = input_to_messages(ResponsesInput::Items(vec![sys, item("reasoning"), call, out]));
    assert_eq!(msgs.len(), 3);
    assert_eq!(msgs[0].role, Role::System);
    let calls = msgs[1].tool_calls.as_ref().unwrap();
    assert_eq!(calls[0].function.arguments, "{}");
    assert_eq!(calls[0].id, "fc1");
    assert_eq!(msgs[2].tool_call_id.as_deref(), Some("fc1"));
    assert!(needs_completion(&msgs));
    assert!(needs_completion(&vec![]));
    assert!(!needs_completion(&vec![Message::assistant("x")]));
    assert_eq!(input_to_messages(ResponsesInput::Empty).len(), 0);
    assert_eq!(input_to_messages(ResponsesInput::Text("hi".into()))[0].text_content(), Some("hi"));
}

#[test]
fn item_text_from_blocks() {
    let c = ItemContent::Blocks(vec![
        TypedBlock { kind: Some("text".into()), text: Some("a".into()) },
        TypedBlock { kind: Some("input_image".into()), text: Some("x".into()) },
        TypedBlock { kind: Some("text".into()), text: None },
        TypedBlock { kind: Some("text".into()), text: Some("b".into()) },
    ]);
    assert_eq!(extract_text(&c), "a\nb");
    assert_eq!(extract_text(&ItemContent::Other), "");
}

#[test]
fn responses_event_sequence() {
    let ev = response_events("resp_1", "msg_1", "m", "hello");
    assert_eq!(ev.len(), 7);
    assert!(matches!(&ev[3], ResponsesEvent::OutputTextDelta { delta } if delta == "hello"));
    assert!(matches!(&ev[6], ResponsesEvent::Completed { text, .. } if text == "hello"));
}

#[test]
fn models_listed() {
    let mut cfg = OllamaConfig { url: "u".into(), default_model: "qwen".into(), max_concurrent: 1, models: vec![] };
    let r = list_models(&cfg);
    assert_eq!(r.object, "list");
    assert_eq!(r.data.len(), 1);
    assert_eq!(r.data[0].id, "qwen");
    cfg.models = vec![
        OllamaModelConfig { name: "a".into(), display_name: None, max_tokens: None },
        OllamaModelConfig { name: "b".into(), display_name: None, max_tokens: Some(8) },
    ];
    let r = list_models(&cfg);
    assert_eq!(r.data.iter().map(|m| m.id.as_str()).collect::<Vec<_>>(), vec!["a", "b"]);
    assert_eq!(r.data[1].owned_by, "ollama");
}

#[test]
fn acp_methods_and_prompts() {
    assert_eq!(acp_method("session/prompt"), AcpMethod::SessionPrompt);
    assert_eq!(acp_method("initialize"), AcpMethod::Initialize);
    assert_eq!(acp_method("bogus"), AcpMethod::Unknown);
    assert_eq!(method_not_found_message("bogus"), "method not found: bogus");
    assert_eq!(prompt_text(&vec![Some("a".into()), None, Some("b".into())]), Some("a\nb".into()));
    assert_eq!(prompt_text(&vec![None]), None);
}

#[test]
fn config_defaults() {
    assert_eq!(default_log_level(), "info");
    assert_eq!(default_bash_allowlist(), vec!["cargo", "rustc", "npm", "node", "python", "python3", "pip", "git"]);
    let b = BashConfig::default();
    assert!(!b.enabled);
    assert_eq!(b.allowlist.len(), 8);
}

#[test]
fn request_logging_helpers() {
    assert!(is_sensitive_header("Authorization"));
    assert!(is_sensitive_header("cookie"));
    assert!(!is_sensitive_header("x-request-id"));
    let kept = loggable_headers(
        &vec![
            ("authorization".into(), Some("secret".into())),
            ("host".into(), Some("localhost".into())),
            ("x-bin".into(), None),
        ],
        true,
    );
    assert_eq!(kept, vec![("host".to_string(), "localhost".to_string())]);
    assert_eq!(request_line("POST", "/v1/chat"), "POST /v1/chat");
    assert_eq!(response_line("GET", "/models", 200, 12), "GET /models -> 200 (12ms)");
}
