use vstd::prelude::*;

use crate::entities::message::Message;
use crate::ports::token_counter::countable_messages;

verus! {

/// Trims a message list to fit within a token budget.
///
/// Implementations preserve the system message (index 0 if `Role::System`)
/// and the last message; only middle turns are eligible for eviction.
pub trait ContextCompressor: Send + Sync {
    /// The list this compressor returns for `messages` and `max_tokens`.
    /// Left unspecified for implementations that do not define it.
    closed spec fn spec_compress(&self, messages: Seq<Message>, max_tokens: u32) -> Seq<Message> {
        vstd::pervasive::arbitrary()
    }

    /// Returns a new message list that fits within `max_tokens` where possible.
    fn compress(&self, messages: Vec<Message>, max_tokens: u32) -> (r: Vec<Message>)
        requires
            countable_messages(messages@),
        ensures
            r@ == self.spec_compress(messages@, max_tokens),
    ;
}

} // verus!
