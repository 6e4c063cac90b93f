use std::sync::Arc;

use vstd::prelude::*;

use crate::entities::message::{Message, Role};
use crate::ports::context_compressor::ContextCompressor;
use crate::ports::token_counter::{countable_message, countable_messages, TokenCounter};

verus! {

/// The leading system message of a non-empty list (all but the last message
/// are candidates), as a list of zero or one messages.
pub open spec fn system_part(messages: Seq<Message>) -> Seq<Message> {
    if messages.len() >= 2 && messages[0].role == Role::System {
        messages.take(1)
    } else {
        seq![]
    }
}

/// The turns between the leading system message and the last message.
pub open spec fn middle_part(messages: Seq<Message>) -> Seq<Message> {
    messages.subrange(system_part(messages).len() as int, messages.len() - 1)
}

/// The system part, the middle turns without their `k` oldest, and the last message.
pub open spec fn window(messages: Seq<Message>, k: int) -> Seq<Message> {
    system_part(messages) + middle_part(messages).skip(k) + seq![messages.last()]
}

/// Splits a non-empty list into leading system message (0 or 1), middle
/// turns, and the last message.
pub fn split_messages(messages: Vec<Message>) -> (r: (Vec<Message>, Vec<Message>, Message))
    requires
        messages.len() > 0,
    ensures
        r.0@ == system_part(messages@),
        r.1@ == middle_part(messages@),
        r.2 == messages@.last(),
{
    let mut messages = messages;
    let ghost orig = messages@;
    let last = messages.pop().unwrap();
    let mut system: Vec<Message> = Vec::new();
    if messages.len() > 0 && messages[0].role == Role::System {
        let first = messages.remove(0);
        system.push(first);
        assert(system@ =~= orig.take(1));
    } else {
        assert(system@ =~= Seq::<Message>::empty());
    }
    assert(messages@ =~= middle_part(orig));
    (system, messages, last)
}

/// Drops the oldest non-system messages until the token count fits within `max_tokens`.
///
/// Preservation rules (in priority order):
///   1. System message (index 0 if Role::System) — always kept.
///   2. Last message — always kept so the model always has a question to answer.
///   3. Oldest middle turns are evicted first (FIFO).
///
/// If even the minimum retained set (system + last) exceeds `max_tokens`,
/// only those are returned.
pub struct SlidingWindowCompressor<C: TokenCounter + ?Sized> {
    pub counter: Arc<C>,
}

impl<C: TokenCounter + ?Sized> SlidingWindowCompressor<C> {
    pub fn new(counter: Arc<C>) -> (r: Self)
        ensures
            r.counter == counter,
    {
        SlidingWindowCompressor { counter }
    }

    /// The window after evicting `k` turns fits the budget.
    pub open spec fn fits(&self, messages: Seq<Message>, k: int, max_tokens: u32) -> bool {
        self.counter.spec_count_messages(window(messages, k)) <= max_tokens
    }

    /// The number of oldest middle turns evicted, searching from `k`: the first
    /// count whose window fits, or all of them.
    pub open spec fn evictions_from(&self, messages: Seq<Message>, max_tokens: u32, k: int) -> int
        decreases middle_part(messages).len() - k,
    {
        if k >= middle_part(messages).len() || self.fits(messages, k, max_tokens) {
            k
        } else {
            self.evictions_from(messages, max_tokens, k + 1)
        }
    }

    /// The number of oldest middle turns evicted.
    pub open spec fn evictions(&self, messages: Seq<Message>, max_tokens: u32) -> int {
        self.evictions_from(messages, max_tokens, 0)
    }
}

pub proof fn lemma_evictions_from<C: TokenCounter + ?Sized>(c: &SlidingWindowCompressor<C>, messages: Seq<Message>, max_tokens: u32, k: int)
    requires
        messages.len() > 0,
        0 <= k <= middle_part(messages).len(),
    ensures
        k <= c.evictions_from(messages, max_tokens, k) <= middle_part(messages).len(),
        c.evictions_from(messages, max_tokens, k) < middle_part(messages).len() ==> c.fits(
            messages,
            c.evictions_from(messages, max_tokens, k),
            max_tokens,
        ),
        forall|j: int|
            k <= j < c.evictions_from(messages, max_tokens, k) ==> !#[trigger] c.fits(
                messages,
                j,
                max_tokens,
            ),
    decreases middle_part(messages).len() - k,
{
    if k < middle_part(messages).len() && !c.fits(messages, k, max_tokens) {
        lemma_evictions_from(c, messages, max_tokens, k + 1);
    }
}

/// Every message of a window is one of the list's, so a window of a
/// countable list is countable.
proof fn lemma_window_countable(messages: Seq<Message>, k: int)
    requires
        messages.len() > 0,
        0 <= k <= middle_part(messages).len(),
        countable_messages(messages),
    ensures
        countable_messages(window(messages, k)),
{
    let w = window(messages, k);
    let s = system_part(messages).len() as int;
    assert forall|i: int| 0 <= i < w.len() implies countable_message(#[trigger] w[i]) by {
        if i < s {
            assert(w[i] == messages[i]);
        } else if i < w.len() - 1 {
            assert(w[i] == messages[i + k]);
        } else {
            assert(w[i] == messages[messages.len() - 1]);
        }
    }
}

impl<C: TokenCounter + ?Sized> ContextCompressor for SlidingWindowCompressor<C> {
    open spec fn spec_compress(&self, messages: Seq<Message>, max_tokens: u32) -> Seq<Message> {
        if messages.len() == 0 {
            messages
        } else {
            window(messages, self.evictions(messages, max_tokens))
        }
    }

    fn compress(&self, messages: Vec<Message>, max_tokens: u32) -> (r: Vec<Message>) {
        if messages.len() == 0 {
            return messages;
        }
        let ghost orig = messages@;
        let ghost sys = system_part(orig);
        let ghost mid = middle_part(orig);
        let sys_len: usize = if messages.len() >= 2 && messages[0].role == Role::System {
            1
        } else {
            0
        };
        assert(orig =~= window(orig, 0)) by {
            assert(mid.skip(0) =~= mid);
            assert(orig =~= sys + mid + seq![orig.last()]);
        }
        proof {
            lemma_evictions_from(self, orig, max_tokens, 0);
        }
        let mut candidate = messages;
        let mut k: usize = 0;
        loop
            invariant
                orig == messages@,
                orig.len() > 0,
                countable_messages(orig),
                orig.len() <= usize::MAX,
                sys == system_part(orig),
                mid == middle_part(orig),
                sys_len == sys.len(),
                0 <= k <= mid.len(),
                candidate@ == window(orig, k as int),
                candidate.len() == sys_len + (mid.len() - k) + 1,
                self.evictions(orig, max_tokens) == self.evictions_from(orig, max_tokens, k as int),
            decreases mid.len() - k,
        {
            proof {
                lemma_window_countable(orig, k as int);
            }
            let used = self.counter.count_messages(candidate.as_slice());
            if used <= max_tokens || candidate.len() == sys_len + 1 {
                return candidate;
            }
            candidate.remove(sys_len);
            proof {
                assert(mid.skip(k as int) =~= seq![mid[k as int]] + mid.skip(k + 1));
                assert(candidate@ =~= window(orig, k + 1));
            }
            k = k + 1;
        }
    }
}

/// The sliding window keeps what it promises: the leading system message and
/// the last message stay in place; only the oldest middle turns are dropped,
/// in order; the kept list fits the budget unless nothing more can be
/// dropped; no fewer drops would have fitted; a list that already fits is
/// returned unchanged.
pub proof fn lemma_sliding_window_guarantees<C: TokenCounter + ?Sized>(c: &SlidingWindowCompressor<C>, messages: Seq<Message>, max_tokens: u32)
    requires
        messages.len() > 0,
    ensures
        ({
            let r = c.spec_compress(messages, max_tokens);
            let k = c.evictions(messages, max_tokens);
            &&& 0 <= k <= middle_part(messages).len()
            &&& r == window(messages, k)
            &&& r.last() == messages.last()
            &&& (messages.len() >= 2 && messages[0].role == Role::System) ==> r[0] == messages[0]
            &&& c.counter.spec_count_messages(r) <= max_tokens || k == middle_part(messages).len()
            &&& forall|j: int| 0 <= j < k ==> !#[trigger] c.fits(messages, j, max_tokens)
            &&& c.counter.spec_count_messages(messages) <= max_tokens ==> r == messages
        }),
{
    lemma_evictions_from(c, messages, max_tokens, 0);
    let k = c.evictions(messages, max_tokens);
    let r = window(messages, k);
    assert(r.last() == messages.last());
    assert(messages =~= window(messages, 0)) by {
        assert(middle_part(messages).skip(0) =~= middle_part(messages));
        assert(messages =~= system_part(messages) + middle_part(messages) + seq![messages.last()]);
    }
    if c.counter.spec_count_messages(messages) <= max_tokens {
        assert(c.fits(messages, 0, max_tokens));
    }
}

} // verus!
