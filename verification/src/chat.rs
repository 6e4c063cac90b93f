//! Preparing a request for the backend: prompt shaping, then compression.
use vstd::prelude::*;

use crate::compression::CompressionService;
use crate::entities::conversation::{ConversationRequest, ConversationResponse};
use crate::entities::message::Message;
use crate::ports::context_compressor::ContextCompressor;
use crate::ports::token_counter::{countable, countable_messages, messages_countable, TokenCounter};
use crate::prompt::quirks::cleaned_by;
use crate::prompt::system_prompt::with_instructions;
use crate::prompt::PromptPipeline;

verus! {

/// The context budget when a request sets no `max_tokens`: 90% of a 4K
/// context, which avoids off-by-one token rejections.
pub const DEFAULT_CONTEXT_BUDGET: u32 = 3600;

/// The least answer length asked for on tool-loop requests; without it
/// Ollama stops after 128 tokens.
pub const TOOL_LOOP_MIN_TOKENS: u32 = 4096;

/// The token budget of a request.
pub fn context_budget(max_tokens: Option<u32>) -> (r: u32)
    ensures
        r == match max_tokens {
            Some(m) => m,
            None => DEFAULT_CONTEXT_BUDGET,
        },
{
    match max_tokens {
        Some(m) => m,
        None => DEFAULT_CONTEXT_BUDGET,
    }
}

/// The answer length asked for on a tool-loop request: the requested one,
/// but at least `TOOL_LOOP_MIN_TOKENS`.
pub fn tool_loop_max_tokens(requested: Option<u32>) -> (r: Option<u32>)
    ensures
        r == Some(
            match requested {
                Some(m) => if m > TOOL_LOOP_MIN_TOKENS {
                    m
                } else {
                    TOOL_LOOP_MIN_TOKENS
                },
                None => TOOL_LOOP_MIN_TOKENS,
            },
        ),
{
    match requested {
        Some(m) => if m > TOOL_LOOP_MIN_TOKENS {
            Some(m)
        } else {
            Some(TOOL_LOOP_MIN_TOKENS)
        },
        None => Some(TOOL_LOOP_MIN_TOKENS),
    }
}

/// Shapes the request's messages for its model (system prompt, quirks),
/// then compresses them into the budget; every other field is kept.
/// `None` when the shaped messages hold a text the counter cannot take.
pub fn prepare<T: TokenCounter + ?Sized, C: ContextCompressor + ?Sized>(
    pipeline: &PromptPipeline,
    compression: &CompressionService<T, C>,
    req: ConversationRequest,
) -> (r: Option<ConversationRequest>)
    requires
        pipeline.handles(req.model.0@),
    ensures
        exists|mid: Seq<Message>, shaped: Seq<Message>|
            {
                &&& with_instructions(req.messages@, pipeline.system_prompt.instructions(req.model.0@), mid)
                &&& shaped.len() == mid.len()
                &&& forall|i: int|
                    0 <= i < shaped.len() ==> cleaned_by(*pipeline.quirks.registry, req.model.0@, mid[i], #[trigger] shaped[i])
                &&& match r {
                    Some(p) => countable_messages(shaped) && p.messages@ == compression.spec_maybe_compress(
                        shaped,
                        context_budget_spec(req.max_tokens),
                    ),
                    None => !countable_messages(shaped),
                }
            },
        r matches Some(p) ==> {
            &&& p.id == req.id
            &&& p.model == req.model
            &&& p.stream == req.stream
            &&& p.temperature_bits == req.temperature_bits
            &&& p.max_tokens == req.max_tokens
            &&& p.tool_definitions == req.tool_definitions
        },
{
    let ConversationRequest { id, model, messages, stream, temperature_bits, max_tokens, tool_definitions } =
        req;
    let shaped = pipeline.transform(model.as_str(), messages);
    if !messages_countable(shaped.as_slice()) {
        return None;
    }
    let budget = context_budget(max_tokens);
    let messages = compression.maybe_compress(shaped, budget);
    Some(ConversationRequest { id, model, messages, stream, temperature_bits, max_tokens, tool_definitions })
}

/// The token budget of a request, as `context_budget` computes it.
pub open spec fn context_budget_spec(max_tokens: Option<u32>) -> u32 {
    match max_tokens {
        Some(m) => m,
        None => DEFAULT_CONTEXT_BUDGET,
    }
}

/// An answer with its token counts: the prompt's, as counted before the
/// request was prepared, and the counter's count of the answer's text.
pub fn with_token_counts<T: TokenCounter + ?Sized>(counter: &T, prompt_tokens: u32, resp: ConversationResponse) -> (r:
    ConversationResponse)
    requires
        countable(resp.content@),
    ensures
        r.prompt_tokens == prompt_tokens,
        r.completion_tokens == counter.spec_count_str(resp.content@),
        r.id == resp.id,
        r.model == resp.model,
        r.content == resp.content,
        r.tool_calls == resp.tool_calls,
{
    let mut resp = resp;
    resp.prompt_tokens = prompt_tokens;
    resp.completion_tokens = counter.count_str(resp.content.as_str());
    resp
}

} // verus!
