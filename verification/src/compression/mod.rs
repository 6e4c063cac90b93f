//! Context compression: keep the conversation inside the token budget.
pub mod sliding_window;

pub use sliding_window::SlidingWindowCompressor;

use std::sync::Arc;

use vstd::prelude::*;

use crate::entities::message::Message;
use crate::ports::context_compressor::ContextCompressor;
use crate::ports::token_counter::{countable_messages, TokenCounter};

verus! {

/// Applies context compression when the message list exceeds the model's token budget.
pub struct CompressionService<T: TokenCounter + ?Sized, C: ContextCompressor + ?Sized> {
    pub counter: Arc<T>,
    pub compressor: Arc<C>,
}

impl<T: TokenCounter + ?Sized, C: ContextCompressor + ?Sized> CompressionService<T, C> {
    pub fn new(counter: Arc<T>, compressor: Arc<C>) -> (r: Self)
        ensures
            r.counter == counter,
            r.compressor == compressor,
    {
        CompressionService { counter, compressor }
    }

    /// What `maybe_compress` returns: the list itself when it fits the budget,
    /// otherwise the compressor's result.
    pub open spec fn spec_maybe_compress(&self, messages: Seq<Message>, max_tokens: u32) -> Seq<Message> {
        if self.counter.spec_count_messages(messages) <= max_tokens {
            messages
        } else {
            self.compressor.spec_compress(messages, max_tokens)
        }
    }

    /// Returns messages trimmed to fit within `max_tokens`, or the original list
    /// unchanged if it already fits.
    pub fn maybe_compress(&self, messages: Vec<Message>, max_tokens: u32) -> (r: Vec<Message>)
        requires
            countable_messages(messages@),
        ensures
            r@ == self.spec_maybe_compress(messages@, max_tokens),
    {
        let used = self.counter.count_messages(messages.as_slice());
        if used <= max_tokens {
            return messages;
        }
        self.compressor.compress(messages, max_tokens)
    }
}

/// A conversation that already fits its budget passes through unchanged,
/// whatever the compressor would do.
pub proof fn lemma_fitting_conversation_unchanged<T: TokenCounter + ?Sized, C: ContextCompressor + ?Sized>(
    svc: &CompressionService<T, C>,
    messages: Seq<Message>,
    max_tokens: u32,
)
    requires
        svc.counter.spec_count_messages(messages) <= max_tokens,
    ensures
        svc.spec_maybe_compress(messages, max_tokens) == messages,
{
}

} // verus!
