use nixacp_gateway::entities::conversation::{ConversationRequest, ConversationResponse};
use nixacp_gateway::entities::message::{Message, Role};
use nixacp_gateway::entities::model::ModelId;
use nixacp_gateway::entities::stream_chunk::{FinishReason, StreamChunk};
use nixacp_gateway::entities::tool::{ToolCall, ToolDefinition, ToolError, ToolResult};
use nixacp_gateway::ports::llm_backend::BackendError;

#[test]
fn text_content_single_part() {
    let m = Message::user("hello");
    assert_eq!(m.text_content(), Some("hello"));
}

#[test]
fn model_id_display() {
    let id = ModelId::new("qwen25-chat-local:latest");
    assert_eq!(id.to_string(), "qwen25-chat-local:latest");
}

#[test]
fn delta_not_terminal() {
    assert!(!StreamChunk::delta("hi").is_terminal());
}

#[test]
fn stop_is_terminal() {
    assert!(StreamChunk::stop().is_terminal());
}

#[test]
fn finish_reason_display() {
    assert_eq!(FinishReason::Stop.to_string(), "stop");
    assert_eq!(FinishReason::Length.to_string(), "length");
    assert_eq!(FinishReason::ToolCalls.to_string(), "tool_calls");
}

#[test]
fn conversation_request_no_tools_by_default() {
    let req = ConversationRequest::new(ModelId::new("m"), vec![Message::user("hi")]);
    assert!(!req.has_tools());
    assert!(req.tool_definitions.is_empty());
}

#[test]
fn conversation_request_with_tools() {
    let mut req = ConversationRequest::new(ModelId::new("m"), vec![Message::user("hi")]);
    req.tool_definitions = vec![ToolDefinition::function(
        "file_read",
        "Read a file",
        serde_json::from_str("{}").unwrap(),
    )];
    assert!(req.has_tools());
}

fn response(content: &str, tool_calls: Option<Vec<ToolCall>>) -> ConversationResponse {
    ConversationResponse {
        id: uuid::Uuid::new_v4().as_u128(),
        model: ModelId::new("m"),
        content: content.to_owned(),
        prompt_tokens: 0,
        completion_tokens: 0,
        tool_calls,
    }
}

#[test]
fn conversation_response_is_tool_call_true() {
    let resp = response("", Some(vec![ToolCall::new("c1", "file_read", r#"{"path":"a.rs"}"#)]));
    assert!(resp.is_tool_call());
}

#[test]
fn conversation_response_is_tool_call_false_when_none() {
    let mut resp = response("hello", None);
    resp.prompt_tokens = 5;
    resp.completion_tokens = 3;
    assert!(!resp.is_tool_call());
}

#[test]
fn conversation_response_is_tool_call_false_when_empty_vec() {
    let resp = response("", Some(vec![]));
    assert!(!resp.is_tool_call());
}

#[test]
fn role_names() {
    assert_eq!(Role::System.to_string(), "system");
    assert_eq!(Role::User.to_string(), "user");
    assert_eq!(Role::Assistant.to_string(), "assistant");
    assert_eq!(Role::Tool.to_string(), "tool");
}

#[test]
fn tool_error_messages() {
    assert_eq!(ToolError::NotFound("x".into()).to_string(), "not found: x");
    assert_eq!(ToolError::Unauthorized("x".into()).to_string(), "unauthorized: x");
    assert_eq!(ToolError::InvalidArguments("x".into()).to_string(), "invalid arguments: x");
    assert_eq!(ToolError::ExecutionFailed("x".into()).to_string(), "execution failed: x");
}

#[test]
fn tool_result_err_carries_message() {
    let r = ToolResult::err("c9".into(), ToolError::NotFound("ghost".into()));
    assert!(r.is_error);
    assert_eq!(r.tool_call_id, "c9");
    assert_eq!(r.content, "not found: ghost");
}

#[test]
fn backend_error_messages() {
    assert_eq!(BackendError::Timeout.to_string(), "timeout");
    assert_eq!(BackendError::Transport("down".into()).to_string(), "transport: down");
    assert_eq!(
        BackendError::Upstream { status: 503, body: "busy".into() }.to_string(),
        "upstream 503: busy"
    );
    assert_eq!(BackendError::StreamParse("bad".into()).to_string(), "stream parse: bad");
    assert_eq!(BackendError::ModelNotFound("m".into()).to_string(), "model not found: m");
}

#[test]
fn tool_result_message_has_call_id() {
    let m = Message::tool_result("call_1", "[dir] src/");
    assert_eq!(m.role, Role::Tool);
    assert_eq!(m.tool_call_id.as_deref(), Some("call_1"));
    assert_eq!(m.text_content(), Some("[dir] src/"));
}

#[test]
fn new_requests_get_version_4_ids() {
    let req = ConversationRequest::new(ModelId::new("m"), vec![]);
    assert_eq!((req.id >> 76) & 0xf, 4);
    assert_eq!((req.id >> 62) & 0x3, 2);
    assert!(req.stream);
}
