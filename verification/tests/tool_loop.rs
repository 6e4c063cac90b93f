use std::sync::Arc;

use nixacp_gateway::entities::conversation::{ConversationRequest, ConversationResponse};
use nixacp_gateway::entities::message::{Message, Role};
use nixacp_gateway::entities::model::ModelId;
use nixacp_gateway::entities::tool::{ToolCall, ToolResult};
use nixacp_gateway::ports::tool_runtime::ToolRuntime;
use nixacp_gateway::tool_loop::{
    find_tool, record_tool_round, unknown_tool_result, ToolLoop, ToolLoopStep, MAX_PASSES,
};

fn plain_response(content: &str) -> ConversationResponse {
    ConversationResponse {
        id: 1,
        model: ModelId::new("test"),
        content: content.to_owned(),
        prompt_tokens: 0,
        completion_tokens: 0,
        tool_calls: None,
    }
}

fn tool_call_response(calls: Vec<ToolCall>) -> ConversationResponse {
    ConversationResponse {
        id: 2,
        model: ModelId::new("test"),
        content: String::new(),
        prompt_tokens: 0,
        completion_tokens: 0,
        tool_calls: Some(calls),
    }
}

fn base_request() -> ConversationRequest {
    ConversationRequest::new(ModelId::new("test"), vec![Message::user("hello")])
}

struct FakeTool(&'static str);
impl ToolRuntime for FakeTool {
    fn name(&self) -> &str {
        self.0
    }
}

#[test]
fn plain_answer_finishes_the_loop() {
    let mut l = ToolLoop::new(base_request());
    assert!(l.begin_pass());
    match l.on_response(plain_response("done")) {
        ToolLoopStep::Finished(r) => assert_eq!(r.content, "done"),
        ToolLoopStep::RunTools(_) => panic!("no tools requested"),
    }
}

#[test]
fn passes_are_limited() {
    let mut l = ToolLoop::new(base_request());
    for _ in 0..MAX_PASSES {
        assert!(l.begin_pass());
        match l.on_response(tool_call_response(vec![ToolCall::new("c1", "read_file", "{}")])) {
            ToolLoopStep::RunTools(calls) => {
                let results = vec![ToolResult::ok("c1".into(), "ok".into())];
                l.on_results(calls, results);
            }
            ToolLoopStep::Finished(_) => panic!("tools requested"),
        }
    }
    assert!(!l.begin_pass());
    assert!(l.finish().unwrap().is_tool_call());
}

#[test]
fn tool_result_messages_appended_in_order() {
    let mut req = base_request();
    let calls = vec![ToolCall::new("c1", "read_file", "{}"), ToolCall::new("c2", "search", "{}")];
    // results arrive in completion order, with one for an unknown id
    let results = vec![
        ToolResult::ok("zz".into(), "stray".into()),
        ToolResult::ok("c2".into(), "results".into()),
        ToolResult::ok("c1".into(), "file".into()),
    ];
    record_tool_round(&mut req, calls, results);
    let msgs = &req.messages;
    assert_eq!(msgs.len(), 5);
    assert_eq!(msgs[0].role, Role::User);
    assert_eq!(msgs[1].role, Role::Assistant);
    assert!(msgs[1].tool_calls.is_some());
    assert_eq!(msgs[2].tool_call_id.as_deref(), Some("c1"));
    assert_eq!(msgs[2].text_content(), Some("file"));
    assert_eq!(msgs[3].tool_call_id.as_deref(), Some("c2"));
    assert_eq!(msgs[4].tool_call_id.as_deref(), Some("zz"));
}

#[test]
fn tools_found_by_name() {
    let tools: Vec<Arc<dyn ToolRuntime>> = vec![Arc::new(FakeTool("read_file")), Arc::new(FakeTool("search"))];
    assert_eq!(find_tool(&tools, "search"), Some(1));
    assert_eq!(find_tool(&tools, "nope"), None);
}

#[test]
fn unknown_tool_becomes_error_result() {
    let r = unknown_tool_result(&ToolCall::new("c1", "nonexistent_tool", "{}"));
    assert!(r.is_error);
    assert_eq!(r.tool_call_id, "c1");
    assert_eq!(r.content, "not found: nonexistent_tool");
}

#[test]
fn short_answer_after_a_file_read_gets_the_file_appended() {
    let mut l = ToolLoop::new(base_request());
    assert!(l.begin_pass());
    let calls = match l.on_response(tool_call_response(vec![
        ToolCall::new("c1", "read_file", r#"{"path":"a.rs"}"#),
        ToolCall::new("c2", "list_directory", "{}"),
    ])) {
        ToolLoopStep::RunTools(calls) => calls,
        ToolLoopStep::Finished(_) => panic!("tools requested"),
    };
    let results = vec![
        ToolResult::ok("c2".into(), "[file] a.rs".into()),
        ToolResult::ok("c1".into(), "fn main() {}\n".into()),
    ];
    l.on_results(calls, results);
    assert_eq!(l.last_read.as_deref(), Some("fn main() {}\n"));
    assert!(l.begin_pass());
    match l.on_response(plain_response("Here:")) {
        ToolLoopStep::Finished(r) => assert_eq!(r.content, "Here:\n\nfn main() {}\n"),
        ToolLoopStep::RunTools(_) => panic!("no tools requested"),
    }
}

#[test]
fn long_answer_or_failed_read_keeps_the_answer() {
    let mut l = ToolLoop::new(base_request());
    assert!(l.begin_pass());
    let calls = match l.on_response(tool_call_response(vec![ToolCall::new("c1", "read_file", "{}")])) {
        ToolLoopStep::RunTools(calls) => calls,
        ToolLoopStep::Finished(_) => panic!("tools requested"),
    };
    l.on_results(calls, vec![ToolResult::ok("c1".into(), "abc".into())]);
    assert!(l.begin_pass());
    match l.on_response(plain_response("a longer answer")) {
        ToolLoopStep::Finished(r) => assert_eq!(r.content, "a longer answer"),
        ToolLoopStep::RunTools(_) => panic!("no tools requested"),
    }

    let mut l = ToolLoop::new(base_request());
    assert!(l.begin_pass());
    let calls = match l.on_response(tool_call_response(vec![ToolCall::new("c1", "read_file", "{}")])) {
        ToolLoopStep::RunTools(calls) => calls,
        ToolLoopStep::Finished(_) => panic!("tools requested"),
    };
    l.on_results(calls, vec![ToolResult { tool_call_id: "c1".into(), content: "not found: a.rs".into(), is_error: true }]);
    assert!(l.last_read.is_none());
    assert!(l.begin_pass());
    match l.on_response(plain_response("no")) {
        ToolLoopStep::Finished(r) => assert_eq!(r.content, "no"),
        ToolLoopStep::RunTools(_) => panic!("no tools requested"),
    }
}
