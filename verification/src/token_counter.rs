//! Token counting with the cl100k_base encoding.
use vstd::prelude::*;

use crate::entities::message::{part_text, ContentPart, Message};
use crate::ports::token_counter::{countable, countable_message, countable_messages, TokenCounter};

verus! {

/// The number of tokens `tiktoken_rs`'s cl100k_base encoding gives `text`
/// with special tokens treated as ordinary text.
pub uninterp spec fn cl100k_token_count(text: Seq<char>) -> nat;

/// Loads the cl100k_base tables once per process
/// (`tiktoken_rs::cl100k_base_singleton`), so the first count does not pay
/// for it. Nothing is stated: the call only has an effect on timing.
#[verifier::external_body]
fn load_cl100k() {
    let _ = tiktoken_rs::cl100k_base_singleton();
}

/// The number of tokens in `text`
/// (`cl100k_base_singleton().encode_ordinary(text).len()`); a function of
/// the text alone. `encode_ordinary` unwraps every match of its splitting
/// pattern; fancy-regex fails a match whose backtracking stack passes a
/// million entries, and the pattern's `\s+(?!\S)` keeps one entry per
/// character of a run of white space, so texts with such a run are left out.
#[verifier::external_body]
fn cl100k_len(text: &str) -> (r: usize)
    requires
        countable(text@),
    ensures
        r == cl100k_token_count(text@),
{
    tiktoken_rs::cl100k_base_singleton().encode_ordinary(text).len()
}

/// 2^32, the modulus of `u32` arithmetic.
pub open spec fn two_pow_32() -> int {
    0x1_0000_0000
}

/// The token count of a text as a `u32` (`len() as u32`).
pub fn encode_len(text: &str) -> (r: u32)
    requires
        countable(text@),
    ensures
        r == cl100k_token_count(text@) as u32,
{
    cl100k_len(text) as u32
}

/// The tokens of a message's parts, each counted as a `u32`, summed exactly.
pub open spec fn parts_tokens(parts: Seq<ContentPart>) -> int
    decreases parts.len(),
{
    if parts.len() == 0 {
        0
    } else {
        parts_tokens(parts.drop_last()) + (cl100k_token_count(part_text(parts.last())) as u32) as int
    }
}

/// The tokens of one message: the sum over its parts, wrapping at 2^32.
pub open spec fn message_tokens(m: Message) -> u32 {
    (parts_tokens(m.content@) % two_pow_32()) as u32
}

/// The exact total over messages of 4 overhead tokens plus their own.
pub open spec fn messages_tokens(ms: Seq<Message>) -> int
    decreases ms.len(),
{
    if ms.len() == 0 {
        0
    } else {
        messages_tokens(ms.drop_last()) + 4 + message_tokens(ms.last()) as int
    }
}

/// The count for a message list: 4 overhead tokens per message, each
/// message's own tokens, and 2 reply-priming tokens, wrapping at 2^32.
pub open spec fn conversation_tokens(ms: Seq<Message>) -> u32 {
    ((messages_tokens(ms) + 2) % two_pow_32()) as u32
}

/// The sum of the messages' own token counts.
pub open spec fn message_tokens_sum(ms: Seq<Message>) -> int
    decreases ms.len(),
{
    if ms.len() == 0 {
        0
    } else {
        message_tokens_sum(ms.drop_last()) + message_tokens(ms.last()) as int
    }
}

/// A message list counts 4 tokens per message, each message's own tokens,
/// and 2 more for the reply; the count is exact while it fits a `u32`.
pub proof fn lemma_count_messages_formula(ms: Seq<Message>)
    ensures
        messages_tokens(ms) == 4 * ms.len() + message_tokens_sum(ms),
        4 * ms.len() + message_tokens_sum(ms) + 2 < two_pow_32() ==> conversation_tokens(ms) as int == 4
            * ms.len() + message_tokens_sum(ms) + 2,
    decreases ms.len(),
{
    if ms.len() > 0 {
        lemma_count_messages_formula(ms.drop_last());
    }
    lemma_messages_tokens_nonneg(ms);
    if 4 * ms.len() + message_tokens_sum(ms) + 2 < two_pow_32() {
        vstd::arithmetic::div_mod::lemma_small_mod((messages_tokens(ms) + 2) as nat, two_pow_32() as nat);
    }
}

proof fn lemma_parts_tokens_nonneg(parts: Seq<ContentPart>)
    ensures
        parts_tokens(parts) >= 0,
    decreases parts.len(),
{
    if parts.len() > 0 {
        lemma_parts_tokens_nonneg(parts.drop_last());
    }
}

proof fn lemma_messages_tokens_nonneg(ms: Seq<Message>)
    ensures
        messages_tokens(ms) >= 0,
    decreases ms.len(),
{
    if ms.len() > 0 {
        lemma_messages_tokens_nonneg(ms.drop_last());
    }
}

/// Adding `b` to a value reduced modulo 2^32 with wrapping gives the sum
/// reduced modulo 2^32.
proof fn lemma_wrapping_step(a: int, b: int)
    requires
        a >= 0,
        0 <= b < two_pow_32(),
    ensures
        vstd::wrapping::u32_specs::wrapping_add((a % two_pow_32()) as u32, b as u32) == ((a + b)
            % two_pow_32()) as u32,
{
    let m = two_pow_32();
    vstd::arithmetic::div_mod::lemma_add_mod_noop(a, b, m);
    vstd::arithmetic::div_mod::lemma_small_mod(b as nat, m as nat);
    let x = a % m;
    assert(0 <= x < m);
    if x + b >= m {
        vstd::arithmetic::div_mod::lemma_small_mod((x + b - m) as nat, m as nat);
        vstd::arithmetic::div_mod::lemma_mod_sub_multiples_vanish(x + b, m);
    } else {
        vstd::arithmetic::div_mod::lemma_small_mod((x + b) as nat, m as nat);
    }
}

/// The tokens of one message: the sum over its text parts.
pub fn message_token_count(msg: &Message) -> (r: u32)
    requires
        countable_message(*msg),
    ensures
        r == message_tokens(*msg),
{
    let mut acc: u32 = 0;
    let mut i: usize = 0;
    while i < msg.content.len()
        invariant
            i <= msg.content.len(),
            countable_message(*msg),
            acc == (parts_tokens(msg.content@.take(i as int)) % two_pow_32()) as u32,
        decreases msg.content.len() - i,
    {
        let n = match &msg.content[i] {
            ContentPart::Text(s) => encode_len(s.as_str()),
        };
        proof {
            let pre = msg.content@.take(i as int);
            assert(msg.content@.take(i + 1).drop_last() =~= pre);
            assert(msg.content@.take(i + 1).last() == msg.content@[i as int]);
            lemma_parts_tokens_nonneg(pre);
            lemma_wrapping_step(parts_tokens(pre), n as int);
        }
        acc = acc.wrapping_add(n);
        i = i + 1;
    }
    assert(msg.content@.take(msg.content.len() as int) =~= msg.content@);
    acc
}

/// Counts tokens with the cl100k_base encoding, the reference OpenAI uses
/// for message lists.
pub struct TiktokenCounter;

impl TiktokenCounter {
    /// A counter, with the encoding tables loaded now rather than on the
    /// first request.
    pub fn new() -> (r: Self) {
        load_cl100k();
        TiktokenCounter
    }
}

impl TokenCounter for TiktokenCounter {
    open spec fn spec_count_messages(&self, messages: Seq<Message>) -> u32 {
        conversation_tokens(messages)
    }

    open spec fn spec_count_str(&self, text: Seq<char>) -> u32 {
        cl100k_token_count(text) as u32
    }

    fn count_messages(&self, messages: &[Message]) -> (r: u32) {
        let mut acc: u32 = 0;
        let mut i: usize = 0;
        while i < messages.len()
            invariant
                i <= messages.len(),
                countable_messages(messages@),
                acc == (messages_tokens(messages@.take(i as int)) % two_pow_32()) as u32,
            decreases messages.len() - i,
        {
            let n = message_token_count(&messages[i]);
            proof {
                let pre = messages@.take(i as int);
                assert(messages@.take(i + 1).drop_last() =~= pre);
                assert(messages@.take(i + 1).last() == messages@[i as int]);
                lemma_messages_tokens_nonneg(pre);
                lemma_wrapping_step(messages_tokens(pre), 4);
                lemma_messages_tokens_nonneg(pre);
                lemma_wrapping_step(messages_tokens(pre) + 4, n as int);
            }
            acc = acc.wrapping_add(4);
            acc = acc.wrapping_add(n);
            i = i + 1;
        }
        proof {
            assert(messages@.take(messages.len() as int) =~= messages@);
            lemma_messages_tokens_nonneg(messages@);
            lemma_wrapping_step(messages_tokens(messages@), 2);
        }
        acc.wrapping_add(2)
    }

    fn count_str(&self, text: &str) -> (r: u32) {
        encode_len(text)
    }
}

} // verus!
