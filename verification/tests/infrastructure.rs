use nixacp_gateway::entities::conversation::ConversationRequest;
use nixacp_gateway::entities::message::Message;
use nixacp_gateway::entities::model::ModelId;
use nixacp_gateway::entities::tool::ToolCall;
use nixacp_gateway::logging::{LogLevel, LogRequest, LogType, StdAppLog};
use nixacp_gateway::ollama::client::{chat_url, domain_messages, domain_tools, model_descriptors, tags_url};
use nixacp_gateway::entities::stream_chunk::StreamChunk;
use nixacp_gateway::ollama::stream::{stream_chunk_of, trim_ascii_bytes, NdjsonBuffer, NdjsonReader, ReadStep};
use nixacp_gateway::ports::llm_backend::BackendError;
use nixacp_gateway::ollama::types::{OllamaChatChunk, OllamaMessageContent};
use nixacp_gateway::ports::token_counter::{messages_countable, text_countable, TokenCounter, MAX_SPACE_RUN};
use nixacp_gateway::token_counter::TiktokenCounter;

#[test]
fn count_str_nonempty() {
    let counter = TiktokenCounter::new();
    let n = counter.count_str("Hello, world!");
    assert!(n > 0, "expected nonzero token count");
}

#[test]
fn count_messages_includes_overhead() {
    let counter = TiktokenCounter::new();
    let msgs = vec![Message::user("hi")];
    // 4 overhead + tokens("hi") + 2 reply priming
    let n = counter.count_messages(&msgs);
    assert!(n >= 6);
}

#[test]
fn longer_text_more_tokens() {
    let counter = TiktokenCounter::new();
    let short = counter.count_str("hi");
    let long = counter.count_str("Hello, how are you doing today? I have a long message.");
    assert!(long > short);
}

#[test]
fn message_count_is_overhead_plus_text() {
    let counter = TiktokenCounter::new();
    let text = counter.count_str("hello there");
    assert_eq!(counter.count_messages(&[Message::user("hello there")]), 4 + text + 2);
    assert_eq!(counter.count_messages(&[]), 2);
}

fn req_with_messages(messages: Vec<Message>) -> ConversationRequest {
    let mut r = ConversationRequest::new(ModelId::new("test"), messages);
    r.stream = false;
    r
}

#[test]
fn domain_messages_serializes_tool_calls_on_assistant_message() {
    let call = ToolCall::new("call_1", "list_dir", r#"{"path":"."}"#);
    let msg = Message::assistant_with_tool_calls(vec![call]);
    let req = req_with_messages(vec![msg]);
    let ollama = domain_messages(&req);
    assert_eq!(ollama.len(), 1);
    let tool_calls = ollama[0].tool_calls.as_ref().expect("tool_calls must be set");
    assert_eq!(tool_calls.len(), 1);
    assert_eq!(tool_calls[0].function.name, "list_dir");
    assert_eq!(tool_calls[0].function.arguments["path"], ".");
}

#[test]
fn domain_messages_plain_assistant_has_no_tool_calls() {
    let req = req_with_messages(vec![Message::assistant("hello")]);
    let ollama = domain_messages(&req);
    assert!(ollama[0].tool_calls.is_none());
}

#[test]
fn domain_messages_tool_result_carries_tool_call_id() {
    let msg = Message::tool_result("call_1", "[dir] src/\n[file] Cargo.toml");
    let req = req_with_messages(vec![msg]);
    let ollama = domain_messages(&req);
    assert_eq!(ollama[0].tool_call_id.as_deref(), Some("call_1"));
    assert!(ollama[0].tool_calls.is_none());
}

#[test]
fn domain_messages_bad_arguments_become_empty_object() {
    let msg = Message::assistant_with_tool_calls(vec![ToolCall::new("c", "f", "not json")]);
    let ollama = domain_messages(&req_with_messages(vec![msg]));
    assert_eq!(ollama[0].tool_calls.as_ref().unwrap()[0].function.arguments, serde_json::Value::Object(serde_json::Map::new()));
}

#[test]
fn urls_and_descriptors() {
    assert_eq!(chat_url("http://h:1"), "http://h:1/api/chat");
    assert_eq!(tags_url("http://h:1"), "http://h:1/api/tags");
    let d = model_descriptors(&vec!["qwen".into()]);
    assert_eq!(d[0].id.as_str(), "qwen");
    assert_eq!(d[0].owned_by, "ollama");
    assert!(domain_tools(&vec![]).is_none());
}

fn chunk(content: &str, done: bool) -> OllamaChatChunk {
    OllamaChatChunk {
        model: "m".into(),
        message: OllamaMessageContent { role: "assistant".into(), content: content.into(), tool_calls: None },
        done,
        done_reason: None,
    }
}

#[test]
fn chunks_become_stream_chunks() {
    let d = stream_chunk_of(&chunk("hi", false));
    assert!(!d.is_terminal());
    assert_eq!(d.delta, "hi");
    assert!(stream_chunk_of(&chunk("", true)).is_terminal());
}

#[test]
fn ndjson_lines_are_framed() {
    let mut b = NdjsonBuffer::new();
    b.extend(b"{\"a\":1}\n\n  \r\n{\"b\"");
    assert_eq!(b.next_line().unwrap(), b"{\"a\":1}".to_vec());
    assert!(b.next_line().is_none());
    b.extend(b":2}\n");
    assert_eq!(b.next_line().unwrap(), b"{\"b\":2}".to_vec());
    assert!(b.next_line().is_none());
    b.extend(b"  {\"c\":3}  ");
    assert_eq!(b.take_rest().unwrap(), b"{\"c\":3}".to_vec());
    assert!(b.take_rest().is_none());
    assert_eq!(trim_ascii_bytes(b" \t x \n"), b"x".to_vec());
}

#[test]
fn ndjson_reader_stops_after_final_chunk() {
    let mut r = NdjsonReader::new();
    assert!(matches!(r.next_step(), ReadStep::NeedBytes));
    r.feed(b"{\"a\":1}\n{\"b\":2}\n");
    match r.next_step() {
        ReadStep::Line(l) => assert_eq!(l, b"{\"a\":1}".to_vec()),
        _ => panic!("expected a line"),
    }
    r.on_chunk(&Ok(StreamChunk::delta("a")));
    r.on_chunk(&Err(BackendError::StreamParse("bad".to_string())));
    assert!(matches!(r.next_step(), ReadStep::Line(_)));
    r.on_chunk(&Ok(StreamChunk::stop()));
    r.feed(b"{\"c\":3}\n");
    assert!(matches!(r.next_step(), ReadStep::Stop));
}

#[test]
fn ndjson_reader_ends_with_body() {
    let mut r = NdjsonReader::new();
    r.feed(b"  {\"c\":3} ");
    assert!(matches!(r.next_step(), ReadStep::NeedBytes));
    assert_eq!(r.end_of_body().unwrap(), b"{\"c\":3}".to_vec());
    assert!(matches!(r.next_step(), ReadStep::Stop));

    let mut f = NdjsonReader::new();
    f.feed(b"{\"d\":4}\n");
    f.on_failure();
    assert!(matches!(f.next_step(), ReadStep::Stop));
}

#[test]
fn long_runs_of_white_space_are_not_countable() {
    assert!(text_countable("hello   world\n\n"));
    let just_under = format!("a{}b", " ".repeat(MAX_SPACE_RUN - 1));
    assert!(text_countable(&just_under));
    let at_limit = format!("a{}b", "\u{3000}".repeat(MAX_SPACE_RUN));
    assert!(!text_countable(&at_limit));
    assert!(messages_countable(&[Message::user("hi"), Message::system("be brief")]));
    assert!(!messages_countable(&[Message::user("hi"), Message::user(&at_limit)]));
}

#[test]
fn log_type_screaming_snake_case() {
    assert_eq!(format!("\"{}\"", LogType::ReqExLog.name()), "\"REQ_EX_LOG\"");
    assert_eq!(format!("\"{}\"", LogType::ResExLog.name()), "\"RES_EX_LOG\"");
}

#[test]
fn log_records_are_built() {
    let log = StdAppLog::app(LogLevel::Info, "started");
    assert_eq!(log.log_type.name(), "APP_LOG");
    assert_eq!(log.level.name(), "info");
    assert_eq!(log.message.as_deref(), Some("started"));
    assert!(log.app_id.is_none());
    let req = LogRequest {
        id: "req-1".into(),
        host: "localhost".into(),
        headers: Default::default(),
        url: "/v1/chat/completions".into(),
        method: "POST".into(),
        body: serde_json::Value::Null,
    };
    let log = StdAppLog::req(LogLevel::Info, req).with_request_id("req-1").with_execution_time(42);
    assert_eq!(log.log_type.name(), "REQ_LOG");
    assert_eq!(log.execution_time, Some(42));
    assert_eq!(log.request.as_ref().unwrap().method, "POST");
    assert_eq!(log.request_id.as_deref(), Some("req-1"));
}
