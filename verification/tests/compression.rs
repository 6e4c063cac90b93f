use std::sync::Arc;

use nixacp_gateway::compression::{CompressionService, SlidingWindowCompressor};
use nixacp_gateway::entities::message::{Message, Role};
use nixacp_gateway::ports::context_compressor::ContextCompressor;
use nixacp_gateway::ports::token_counter::TokenCounter;

struct FakeCounter(u32);
impl TokenCounter for FakeCounter {
    fn count_messages(&self, _: &[Message]) -> u32 {
        self.0
    }
    fn count_str(&self, text: &str) -> u32 {
        text.len() as u32
    }
}

struct FakeCompressor;
impl ContextCompressor for FakeCompressor {
    fn compress(&self, mut messages: Vec<Message>, _max: u32) -> Vec<Message> {
        messages.truncate(1);
        messages
    }
}

#[test]
fn no_compression_when_under_budget() {
    let svc = CompressionService::new(Arc::new(FakeCounter(10)), Arc::new(FakeCompressor));
    let msgs = vec![Message::user("a"), Message::user("b")];
    let out = svc.maybe_compress(msgs, 100);
    assert_eq!(out.len(), 2);
}

#[test]
fn compresses_when_over_budget() {
    let svc = CompressionService::new(Arc::new(FakeCounter(200)), Arc::new(FakeCompressor));
    let msgs = vec![Message::user("a"), Message::user("b")];
    let out = svc.maybe_compress(msgs, 100);
    assert_eq!(out.len(), 1);
}

// Each message costs exactly `n` tokens from this counter.
struct FixedCounter(u32);
impl TokenCounter for FixedCounter {
    fn count_messages(&self, msgs: &[Message]) -> u32 {
        msgs.len() as u32 * self.0
    }
    fn count_str(&self, text: &str) -> u32 {
        text.len() as u32
    }
}

fn compressor(cost_per_msg: u32) -> SlidingWindowCompressor<FixedCounter> {
    SlidingWindowCompressor::new(Arc::new(FixedCounter(cost_per_msg)))
}

#[test]
fn keeps_all_when_under_budget() {
    let c = compressor(10);
    let msgs = vec![Message::user("a"), Message::user("b"), Message::user("c")];
    let out = c.compress(msgs, 100);
    assert_eq!(out.len(), 3);
}

#[test]
fn evicts_oldest_middle_turns_first() {
    // cost 20/msg: 5 msgs = 100, budget = 40 keeps 2
    let c = compressor(20);
    let msgs = vec![
        Message::system("sys"),
        Message::user("old1"),
        Message::user("old2"),
        Message::assistant("reply"),
        Message::user("latest"),
    ];
    let out = c.compress(msgs.clone(), 40);
    assert_eq!(out[0].role, Role::System);
    assert_eq!(out.last().unwrap().role, Role::User);
    assert!(out.len() < msgs.len(), "some messages must be evicted");
}

#[test]
fn system_message_always_preserved() {
    let c = compressor(50);
    let msgs = vec![
        Message::system("always keep me"),
        Message::user("q1"),
        Message::assistant("a1"),
        Message::user("q2"),
    ];
    let out = c.compress(msgs, 100);
    assert_eq!(out[0].role, Role::System);
}

#[test]
fn last_user_always_preserved() {
    let c = compressor(50);
    let msgs = vec![
        Message::user("first"),
        Message::user("second"),
        Message::user("must keep this"),
    ];
    let out = c.compress(msgs, 60);
    let last = out.last().unwrap();
    assert_eq!(last.text_content().unwrap(), "must keep this");
}

#[test]
fn compression_boundary_200_messages() {
    // 200-message conversation; each costs 50 tokens. Budget = 2000 keeps ~40.
    let c = compressor(50);
    let msgs: Vec<Message> = (0..200)
        .map(|i| {
            if i % 2 == 0 {
                Message::user(&format!("q{i}"))
            } else {
                Message::assistant(&format!("a{i}"))
            }
        })
        .collect();
    let out = c.compress(msgs, 2000);
    let total_cost = out.len() as u32 * 50;
    assert!(total_cost <= 2000, "compressed context ({total_cost} tokens) must fit within budget");
    assert_eq!(out.last().unwrap().text_content().unwrap(), "a199");
}

#[test]
fn sliding_window_drops_exactly_the_oldest_middle_turns() {
    let c = compressor(10);
    let msgs = vec![
        Message::system("s"),
        Message::user("m1"),
        Message::user("m2"),
        Message::user("m3"),
        Message::user("last"),
    ];
    // 5 messages cost 50; a budget of 30 keeps system, m3 and last.
    let out = c.compress(msgs, 30);
    let texts: Vec<&str> = out.iter().map(|m| m.text_content().unwrap()).collect();
    assert_eq!(texts, vec!["s", "m3", "last"]);
}

#[test]
fn sliding_window_keeps_minimum_when_nothing_fits() {
    let c = compressor(100);
    let msgs = vec![Message::system("s"), Message::user("a"), Message::user("b")];
    let out = c.compress(msgs, 10);
    let texts: Vec<&str> = out.iter().map(|m| m.text_content().unwrap()).collect();
    assert_eq!(texts, vec!["s", "b"]);
}

#[test]
fn sliding_window_empty_input_stays_empty() {
    let c = compressor(10);
    assert!(c.compress(vec![], 0).is_empty());
}

#[test]
fn fitting_conversation_is_unchanged_by_service() {
    let svc = CompressionService::new(Arc::new(FixedCounter(1)), Arc::new(compressor(1)));
    let msgs = vec![Message::user("a"), Message::assistant("b"), Message::user("c")];
    let out = svc.maybe_compress(msgs, 3);
    let texts: Vec<&str> = out.iter().map(|m| m.text_content().unwrap()).collect();
    assert_eq!(texts, vec!["a", "b", "c"]);
}
