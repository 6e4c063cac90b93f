//! Decisions of the reflection loop: whether an answer is acceptable, and
//! how the conversation is extended before a retry.
use vstd::prelude::*;

use crate::entities::conversation::{requests_tools, ConversationRequest, ConversationResponse};
use crate::entities::message::{is_text_message, Message, Role};
use crate::ports::llm_backend::{backend_error_text, BackendError};
use crate::text::{
    chars_of, count_matches, count_matches_chars, ends_with, ends_with_chars, starts_with,
    starts_with_chars, string_from_chars, trim, trim_chars,
};

verus! {

/// Most backend calls one reflection run makes (first attempt and retries).
pub const MAX_ATTEMPTS: usize = 3;

/// Why a reflection run gave up.
#[derive(Debug)]
pub enum ReflectionError {
    Backend(BackendError),
    Cancelled,
}

impl ReflectionError {
    /// The human-readable message of this error.
    pub fn to_string(&self) -> (r: String)
        ensures
            match self {
                ReflectionError::Backend(e) => r@ == "backend: "@ + backend_error_text(*e),
                ReflectionError::Cancelled => r@ == "cancelled"@,
            },
    {
        match self {
            ReflectionError::Backend(e) => String::from_str("backend: ").concat(e.to_string().as_str()),
            ReflectionError::Cancelled => String::from_str("cancelled"),
        }
    }
}

impl From<BackendError> for ReflectionError {
    fn from(e: BackendError) -> (r: Self) {
        ReflectionError::Backend(e)
    }
}

impl vstd::std_specs::convert::FromSpecImpl<BackendError> for ReflectionError {
    open spec fn obeys_from_spec() -> bool {
        true
    }

    open spec fn from_spec(e: BackendError) -> Self {
        ReflectionError::Backend(e)
    }
}

/// A character that may end a complete answer.
pub open spec fn ends_sentence(c: char) -> bool {
    c == '.' || c == '!' || c == '?' || c == '`' || c == '}' || c == ')' || c == ';' || c == '"'
        || c == ':'
}

/// The last character of a text, or a space for an empty one.
pub open spec fn last_char_or_space(t: Seq<char>) -> char {
    if t.len() == 0 {
        ' '
    } else {
        t.last()
    }
}

/// What is wrong with an answer whose content is `content` (`tool` when it
/// asks for tools), checked in this order on the trimmed text; `None` when
/// it is acceptable.
pub open spec fn quality_issue_of(content: Seq<char>, tool: bool) -> Option<Seq<char>> {
    let t = trim(content);
    if t.len() == 0 && !tool {
        Some("empty response"@)
    } else if count_matches(t, "```"@) % 2 != 0 {
        Some("truncated code block"@)
    } else if starts_with(t, "{"@) && ends_with(t, "..."@) {
        Some("truncated json tool call"@)
    } else if ends_with(t, "###"@) || ends_with(t, "##"@) || ends_with(t, "#"@) {
        Some("truncated heading"@)
    } else if count_matches(t, "```"@) % 2 == 0 && !ends_sentence(last_char_or_space(t)) {
        Some("truncated sentence"@)
    } else {
        None
    }
}

/// The trimmed text ends in `#` when it ends in any run of `#`.
proof fn lemma_heading_ends_in_hash(t: Seq<char>)
    requires
        t.len() > 0,
        t.last() != '#',
    ensures
        !ends_with(t, "###"@),
        !ends_with(t, "##"@),
        !ends_with(t, "#"@),
{
    reveal_strlit("###");
    reveal_strlit("##");
    reveal_strlit("#");
    if ends_with(t, "###"@) {
        assert(t.subrange(t.len() - 3, t.len() as int)[2] == t.last());
    }
    if ends_with(t, "##"@) {
        assert(t.subrange(t.len() - 2, t.len() as int)[1] == t.last());
    }
    if ends_with(t, "#"@) {
        assert(t.subrange(t.len() - 1, t.len() as int)[0] == t.last());
    }
}

/// An answer that reads as finished is accepted: its trimmed text is not
/// empty, its ``` fences are balanced, it is not a `{` ... `...` fragment,
/// and it ends in one of `. ! ? } ) ; " :` or a backtick. With balanced fences and no
/// such fragment, an answer ending in any other character but `#` is a
/// truncated sentence.
pub proof fn lemma_sentence_end_decides(content: Seq<char>, tool: bool)
    requires
        trim(content).len() > 0,
        count_matches(trim(content), "```"@) % 2 == 0,
        !(starts_with(trim(content), "{"@) && ends_with(trim(content), "..."@)),
    ensures
        ({
            let c = trim(content).last();
            c == '.' || c == '!' || c == '?' || c == '`' || c == '}' || c == ')' || c == ';' || c == '"'
                || c == ':'
        }) ==> quality_issue_of(content, tool) is None,
        ({
            let c = trim(content).last();
            !(c == '.' || c == '!' || c == '?' || c == '`' || c == '}' || c == ')' || c == ';' || c == '"'
                || c == ':' || c == '#')
        }) ==> quality_issue_of(content, tool) == Some("truncated sentence"@),
{
    let t = trim(content);
    if t.last() != '#' {
        lemma_heading_ends_in_hash(t);
    }
}

/// The other reasons to retry: an empty answer that asks for no tools; an
/// odd number of ``` fences (a code block left open); a `{` ... `...`
/// fragment; an answer ending in `#` (a heading with nothing under it).
pub proof fn lemma_retry_reasons(content: Seq<char>, tool: bool)
    ensures
        trim(content).len() == 0 && !tool ==> quality_issue_of(content, tool) == Some("empty response"@),
        trim(content).len() > 0 && count_matches(trim(content), "```"@) % 2 == 1 ==> quality_issue_of(
            content,
            tool,
        ) == Some("truncated code block"@),
        trim(content).len() > 0 && count_matches(trim(content), "```"@) % 2 == 0 && starts_with(
            trim(content),
            "{"@,
        ) && ends_with(trim(content), "..."@) ==> quality_issue_of(content, tool) == Some(
            "truncated json tool call"@,
        ),
        trim(content).len() > 0 && count_matches(trim(content), "```"@) % 2 == 0 && trim(content).last()
            == '#' && !(starts_with(trim(content), "{"@) && ends_with(trim(content), "..."@))
            ==> quality_issue_of(content, tool) == Some("truncated heading"@),
{
    let t = trim(content);
    reveal_strlit("#");
    if t.len() > 0 && t.last() == '#' {
        assert(t.subrange(t.len() - 1, t.len() as int) =~= "#"@);
    }
}

fn is_sentence_end(c: char) -> (r: bool)
    ensures
        r == ends_sentence(c),
{
    c == '.' || c == '!' || c == '?' || c == '`' || c == '}' || c == ')' || c == ';' || c == '"'
        || c == ':'
}

/// Whether an answer needs another attempt: the reason, or `None` when it is
/// acceptable.
pub fn quality_issue(response: &ConversationResponse) -> (r: Option<&'static str>)
    ensures
        match r {
            Some(s) => quality_issue_of(response.content@, requests_tools(*response)) == Some(s@),
            None => quality_issue_of(response.content@, requests_tools(*response)) is None,
        },
{
    let text = trim_chars(&chars_of(response.content.as_str()));
    if text.len() == 0 && !response.is_tool_call() {
        return Some("empty response");
    }
    let fence = chars_of("```");
    let fences = count_matches_chars(&text, &fence);
    if fences % 2 != 0 {
        return Some("truncated code block");
    }
    if starts_with_chars(&text, &chars_of("{")) && ends_with_chars(&text, &chars_of("...")) {
        return Some("truncated json tool call");
    }
    if ends_with_chars(&text, &chars_of("###")) || ends_with_chars(&text, &chars_of("##"))
        || ends_with_chars(&text, &chars_of("#")) {
        return Some("truncated heading");
    }
    let fences = count_matches_chars(&text, &fence);
    if fences % 2 == 0 {
        let last = if text.len() == 0 {
            ' '
        } else {
            text[text.len() - 1]
        };
        if !is_sentence_end(last) {
            return Some("truncated sentence");
        }
    }
    None
}

/// The text of the reflection prompt for `reason`.
pub open spec fn reflection_prompt_text(reason: Seq<char>) -> Seq<char> {
    "Your previous response was incomplete or malformed ("@ + reason
        + "). Please provide a complete, correct response. Do not repeat the earlier incomplete content \u{2014} start fresh."@
}

/// The prompt injected between a bad answer and the retry.
pub fn reflection_prompt(reason: &str) -> (r: String)
    ensures
        r@ == reflection_prompt_text(reason@),
{
    String::from_str("Your previous response was incomplete or malformed (").concat(reason).concat(
        "). Please provide a complete, correct response. Do not repeat the earlier incomplete content \u{2014} start fresh.",
    )
}

/// The outcome of one backend call as the reflection loop reports it: the
/// answer, the backend's error, or `Timeout` when the call ran out of time
/// (`None`).
pub fn backend_outcome(outcome: Option<Result<ConversationResponse, BackendError>>) -> (r: Result<
    ConversationResponse,
    ReflectionError,
>)
    ensures
        match outcome {
            Some(Ok(resp)) => r == Ok::<ConversationResponse, ReflectionError>(resp),
            Some(Err(e)) => r == Err::<ConversationResponse, ReflectionError>(
                ReflectionError::Backend(e),
            ),
            None => r == Err::<ConversationResponse, ReflectionError>(
                ReflectionError::Backend(BackendError::Timeout),
            ),
        },
{
    match outcome {
        Some(Ok(resp)) => Ok(resp),
        Some(Err(e)) => Err(ReflectionError::Backend(e)),
        None => Err(ReflectionError::Backend(BackendError::Timeout)),
    }
}

/// What to do after the backend answered.
pub enum ReflectionStep {
    /// This answer is the result.
    Accept(ConversationResponse),
    /// Send the extended request again.
    Retry,
}

/// The conversation `r` after a rejected answer with content `content`:
/// `base`, the trimmed answer as an assistant turn unless it is empty, and
/// the reflection prompt for `reason` as a user turn.
pub open spec fn extended_for_retry(base: Seq<Message>, content: Seq<char>, reason: Seq<char>, r: Seq<Message>) -> bool {
    let t = trim(content);
    if t.len() == 0 {
        &&& r.len() == base.len() + 1
        &&& r.take(base.len() as int) == base
        &&& is_text_message(r[base.len() as int], Role::User, reflection_prompt_text(reason))
    } else {
        &&& r.len() == base.len() + 2
        &&& r.take(base.len() as int) == base
        &&& is_text_message(r[base.len() as int], Role::Assistant, t)
        &&& is_text_message(r[base.len() + 1int], Role::User, reflection_prompt_text(reason))
    }
}

/// A run calls the backend once per attempt, and each retry starts the next
/// attempt while no attempt goes past the last: so the attempts a run goes
/// through from a fresh start, `attempts`, number at most `MAX_ATTEMPTS`.
pub proof fn lemma_backend_calls_bounded(attempts: Seq<usize>)
    requires
        attempts.len() > 0,
        attempts[0] == 0,
        forall|i: int| 0 <= i < attempts.len() - 1 ==> #[trigger] attempts[i + 1] == attempts[i] + 1,
        forall|i: int| 0 <= i < attempts.len() ==> #[trigger] attempts[i] < MAX_ATTEMPTS,
    ensures
        attempts.len() <= MAX_ATTEMPTS,
{
    assert forall|i: int| 0 <= i < attempts.len() implies #[trigger] attempts[i] == i by {
        lemma_attempt_is_index(attempts, i);
    }
    assert(attempts[attempts.len() - 1] == attempts.len() - 1);
}

proof fn lemma_attempt_is_index(attempts: Seq<usize>, i: int)
    requires
        0 <= i < attempts.len(),
        attempts[0] == 0,
        forall|j: int| 0 <= j < attempts.len() - 1 ==> #[trigger] attempts[j + 1] == attempts[j] + 1,
    ensures
        attempts[i] == i,
    decreases i,
{
    if i > 0 {
        lemma_attempt_is_index(attempts, i - 1);
        assert(attempts[(i - 1) + 1] == attempts[i - 1] + 1);
    }
}

/// One reflection run: the request as it grows, and the attempt in progress.
pub struct Reflection {
    pub request: ConversationRequest,
    pub attempt: usize,
}

impl Reflection {
    /// No run goes past its last attempt.
    pub open spec fn wf(&self) -> bool {
        self.attempt < MAX_ATTEMPTS
    }

    pub fn new(request: ConversationRequest) -> (r: Self)
        ensures
            r.wf(),
            r.request == request,
            r.attempt == 0,
    {
        Reflection { request, attempt: 0 }
    }

    /// The backend answered the current attempt. The answer is accepted on
    /// the last attempt or when nothing is wrong with it; otherwise the
    /// request is extended for a retry and the next attempt begins.
    pub fn on_response(&mut self, response: ConversationResponse) -> (r: ReflectionStep)
        requires
            old(self).wf(),
        ensures
            final(self).wf(),
            final(self).request.id == old(self).request.id,
            final(self).request.model == old(self).request.model,
            final(self).request.tool_definitions == old(self).request.tool_definitions,
            old(self).attempt == MAX_ATTEMPTS - 1 ==> r == ReflectionStep::Accept(response)
                && *final(self) == *old(self),
            old(self).attempt < MAX_ATTEMPTS - 1 ==> match quality_issue_of(
                response.content@,
                requests_tools(response),
            ) {
                None => r == ReflectionStep::Accept(response) && *final(self) == *old(self),
                Some(reason) => r == ReflectionStep::Retry && final(self).attempt == old(self).attempt
                    + 1 && extended_for_retry(
                    old(self).request.messages@,
                    response.content@,
                    reason,
                    final(self).request.messages@,
                ),
            },
    {
        if self.attempt == MAX_ATTEMPTS - 1 {
            return ReflectionStep::Accept(response);
        }
        match quality_issue(&response) {
            None => ReflectionStep::Accept(response),
            Some(reason) => {
                let ghost base = self.request.messages@;
                let trimmed = trim_chars(&chars_of(response.content.as_str()));
                if trimmed.len() > 0 {
                    let t = string_from_chars(trimmed.as_slice());
                    self.request.messages.push(Message::assistant(t.as_str()));
                }
                let prompt = reflection_prompt(reason);
                self.request.messages.push(Message::user(prompt.as_str()));
                proof {
                    assert(self.request.messages@.take(base.len() as int) =~= base);
                }
                self.attempt = self.attempt + 1;
                ReflectionStep::Retry
            },
        }
    }
}

} // verus!
