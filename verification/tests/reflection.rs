use nixacp_gateway::entities::conversation::{ConversationRequest, ConversationResponse};
use nixacp_gateway::entities::message::{Message, Role};
use nixacp_gateway::entities::model::ModelId;
use nixacp_gateway::ports::llm_backend::BackendError;
use nixacp_gateway::reflection::{
    backend_outcome, quality_issue, reflection_prompt, Reflection, ReflectionError, ReflectionStep,
    MAX_ATTEMPTS,
};

fn good_response(content: &str) -> ConversationResponse {
    ConversationResponse {
        id: uuid::Uuid::new_v4().as_u128(),
        model: ModelId::new("test"),
        content: content.to_owned(),
        prompt_tokens: 0,
        completion_tokens: 0,
        tool_calls: None,
    }
}

fn base_request() -> ConversationRequest {
    ConversationRequest::new(ModelId::new("test"), vec![Message::user("write code")])
}

#[test]
fn quality_issue_good_response() {
    assert!(quality_issue(&good_response("fn main() {}")).is_none());
}

#[test]
fn quality_issue_empty_content() {
    assert!(quality_issue(&good_response("")).is_some());
}

#[test]
fn quality_issue_truncated_fence() {
    assert!(quality_issue(&good_response("```rust\nfn main(")).is_some());
}

#[test]
fn quality_issue_closed_fence_is_fine() {
    assert!(quality_issue(&good_response("```rust\nfn main() {}\n```")).is_none());
}

#[test]
fn quality_issue_truncated_heading() {
    assert!(quality_issue(&good_response("Some intro\n\n###")).is_some());
    assert!(quality_issue(&good_response("Some intro\n\n##")).is_some());
    assert!(quality_issue(&good_response("Some intro\n\n#")).is_some());
}

#[test]
fn quality_issue_complete_heading_is_fine() {
    assert!(quality_issue(&good_response("### Summary\nAll done.")).is_none());
}

#[test]
fn quality_issue_truncated_sentence() {
    assert!(quality_issue(&good_response("This function sorts a vector of integers using Rust")).is_some());
}

#[test]
fn quality_issue_sentence_ends_with_punctuation() {
    assert!(quality_issue(&good_response("This function sorts a vector.")).is_none());
    assert!(quality_issue(&good_response("Use vec.sort();")).is_none());
    assert!(quality_issue(&good_response("Here is the result:")).is_none());
}

#[test]
fn quality_issue_truncated_sentence_not_fired_inside_open_fence() {
    let r = good_response("```rust\nfn sort(v: &mut Vec<i32>)");
    let issue = quality_issue(&r);
    assert!(issue.is_some());
    assert_eq!(issue, Some("truncated code block"));
}

#[test]
fn quality_issue_reasons() {
    assert_eq!(quality_issue(&good_response("   ")), Some("empty response"));
    assert_eq!(quality_issue(&good_response("{\"name\": ...")), Some("truncated json tool call"));
    assert_eq!(quality_issue(&good_response("intro ##")), Some("truncated heading"));
    assert_eq!(quality_issue(&good_response("and then")), Some("truncated sentence"));
}

#[test]
fn reflection_prompt_text() {
    assert_eq!(
        reflection_prompt("empty response"),
        "Your previous response was incomplete or malformed (empty response). Please provide a complete, correct response. Do not repeat the earlier incomplete content \u{2014} start fresh."
    );
}

#[test]
fn good_answer_is_accepted_at_once() {
    let mut r = Reflection::new(base_request());
    match r.on_response(good_response("fn main() {}")) {
        ReflectionStep::Accept(resp) => assert_eq!(resp.content, "fn main() {}"),
        ReflectionStep::Retry => panic!("should accept"),
    }
    assert_eq!(r.request.messages.len(), 1);
}

#[test]
fn bad_answer_extends_request_then_last_attempt_accepts() {
    let mut r = Reflection::new(base_request());
    assert!(matches!(r.on_response(good_response("  Here is the code:\n```rust\nfn main(  ")), ReflectionStep::Retry));
    assert_eq!(r.request.messages.len(), 3);
    assert_eq!(r.request.messages[1].role, Role::Assistant);
    assert_eq!(r.request.messages[1].text_content(), Some("Here is the code:\n```rust\nfn main("));
    assert_eq!(r.request.messages[2].role, Role::User);
    assert!(r.request.messages[2].text_content().unwrap().contains("(truncated code block)"));
    // an empty answer adds only the prompt
    assert!(matches!(r.on_response(good_response("")), ReflectionStep::Retry));
    assert_eq!(r.request.messages.len(), 4);
    assert_eq!(r.attempt, MAX_ATTEMPTS - 1);
    // the last attempt takes whatever comes
    match r.on_response(good_response("")) {
        ReflectionStep::Accept(resp) => assert_eq!(resp.content, ""),
        ReflectionStep::Retry => panic!("last attempt must accept"),
    }
}

#[test]
fn backend_outcomes() {
    assert!(matches!(backend_outcome(None), Err(ReflectionError::Backend(BackendError::Timeout))));
    assert!(matches!(
        backend_outcome(Some(Err(BackendError::Transport("x".into())))),
        Err(ReflectionError::Backend(BackendError::Transport(_)))
    ));
    assert_eq!(backend_outcome(Some(Ok(good_response("ok")))).unwrap().content, "ok");
    assert_eq!(ReflectionError::Cancelled.to_string(), "cancelled");
}
