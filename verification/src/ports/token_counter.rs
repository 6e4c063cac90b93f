use vstd::prelude::*;

use crate::entities::message::{part_text, ContentPart, Message};
use crate::text::chars_of;

verus! {

/// The longest run of white space a counted text may hold. The cl100k
/// splitting pattern keeps one backtracking entry per character of a run
/// of white space, and fancy-regex stops with an error at a million entries.
pub const MAX_SPACE_RUN: usize = 999_000;

/// Unicode white space, the characters the splitting pattern's `\s` matches.
pub open spec fn is_white_space(c: char) -> bool {
    let n = c as u32;
    ||| 0x09 <= n <= 0x0d
    ||| n == 0x20
    ||| n == 0x85
    ||| n == 0xa0
    ||| n == 0x1680
    ||| 0x2000 <= n <= 0x200a
    ||| n == 0x2028
    ||| n == 0x2029
    ||| n == 0x202f
    ||| n == 0x205f
    ||| n == 0x3000
}

/// The number of white-space characters that directly precede position `j`.
pub open spec fn space_run_before(text: Seq<char>, j: int) -> nat
    decreases j,
{
    if j <= 0 || j > text.len() {
        0
    } else if is_white_space(text[j - 1]) {
        space_run_before(text, j - 1) + 1
    } else {
        0
    }
}

/// A text the counter can take: no run of white space in it is
/// `MAX_SPACE_RUN` characters long.
pub open spec fn countable(text: Seq<char>) -> bool {
    forall|j: int| 0 <= j <= text.len() ==> #[trigger] space_run_before(text, j) < MAX_SPACE_RUN
}

/// Every text part of a message is countable.
pub open spec fn countable_message(m: Message) -> bool {
    forall|j: int| 0 <= j < m.content.len() ==> countable(part_text(#[trigger] m.content[j]))
}

/// Every message of a list is countable.
pub open spec fn countable_messages(ms: Seq<Message>) -> bool {
    forall|i: int| 0 <= i < ms.len() ==> countable_message(#[trigger] ms[i])
}

fn is_white_space_char(c: char) -> (r: bool)
    ensures
        r == is_white_space(c),
{
    let n = c as u32;
    (0x09 <= n && n <= 0x0d) || n == 0x20 || n == 0x85 || n == 0xa0 || n == 0x1680 || (0x2000 <= n && n
        <= 0x200a) || n == 0x2028 || n == 0x2029 || n == 0x202f || n == 0x205f || n == 0x3000
}

/// Whether a text can be counted.
pub fn text_countable(text: &str) -> (r: bool)
    ensures
        r == countable(text@),
{
    let cs = chars_of(text);
    let mut run: usize = 0;
    let mut i: usize = 0;
    while i < cs.len()
        invariant
            cs@ == text@,
            i <= cs.len(),
            run == space_run_before(cs@, i as int),
            forall|j: int| 0 <= j <= i ==> #[trigger] space_run_before(cs@, j) < MAX_SPACE_RUN,
        decreases cs.len() - i,
    {
        if is_white_space_char(cs[i]) {
            run = run + 1;
        } else {
            run = 0;
        }
        i = i + 1;
        assert(space_run_before(cs@, i as int) == run);
        if run >= MAX_SPACE_RUN {
            return false;
        }
    }
    true
}

/// Whether every text part of a message can be counted.
pub fn message_countable(m: &Message) -> (r: bool)
    ensures
        r == countable_message(*m),
{
    let mut i: usize = 0;
    while i < m.content.len()
        invariant
            i <= m.content.len(),
            forall|j: int| 0 <= j < i ==> countable(part_text(#[trigger] m.content[j])),
        decreases m.content.len() - i,
    {
        let ok = match &m.content[i] {
            ContentPart::Text(s) => text_countable(s.as_str()),
        };
        if !ok {
            return false;
        }
        i = i + 1;
    }
    true
}

/// Whether every message of a list can be counted.
pub fn messages_countable(ms: &[Message]) -> (r: bool)
    ensures
        r == countable_messages(ms@),
{
    let mut i: usize = 0;
    while i < ms.len()
        invariant
            i <= ms.len(),
            forall|j: int| 0 <= j < i ==> countable_message(#[trigger] ms@[j]),
        decreases ms.len() - i,
    {
        if !message_countable(&ms[i]) {
            return false;
        }
        i = i + 1;
    }
    true
}

/// Counts tokens in a message list or a plain string.
///
/// Implementations use a best-effort approximation — the encoding may not be
/// an exact match for every model's vocabulary, but it is conservative enough
/// to avoid exceeding context windows in practice.
pub trait TokenCounter: Send + Sync {
    /// The count this counter reports for a message list.
    /// Left unspecified for implementations that do not define it.
    closed spec fn spec_count_messages(&self, messages: Seq<Message>) -> u32 {
        vstd::pervasive::arbitrary()
    }

    /// The count this counter reports for a text.
    /// Left unspecified for implementations that do not define it.
    closed spec fn spec_count_str(&self, text: Seq<char>) -> u32 {
        vstd::pervasive::arbitrary()
    }

    fn count_messages(&self, messages: &[Message]) -> (r: u32)
        requires
            countable_messages(messages@),
        ensures
            r == self.spec_count_messages(messages@),
    ;

    fn count_str(&self, text: &str) -> (r: u32)
        requires
            countable(text@),
        ensures
            r == self.spec_count_str(text@),
    ;
}

} // verus!
