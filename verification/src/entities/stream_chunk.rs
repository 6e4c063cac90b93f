use vstd::prelude::*;

verus! {

/// Why the model stopped producing tokens.
#[derive(Debug, Clone, Copy, PartialEq, Eq, Structural)]
pub enum FinishReason {
    Stop,
    Length,
    ToolCalls,
    ContentFilter,
}

/// The wire name of a finish reason.
pub open spec fn finish_reason_name(r: FinishReason) -> Seq<char> {
    match r {
        FinishReason::Stop => "stop"@,
        FinishReason::Length => "length"@,
        FinishReason::ToolCalls => "tool_calls"@,
        FinishReason::ContentFilter => "content_filter"@,
    }
}

impl FinishReason {
    /// The wire name (`stop`, `length`, `tool_calls`, `content_filter`).
    pub fn to_string(&self) -> (r: String)
        ensures
            r@ == finish_reason_name(*self),
    {
        match self {
            FinishReason::Stop => String::from_str("stop"),
            FinishReason::Length => String::from_str("length"),
            FinishReason::ToolCalls => String::from_str("tool_calls"),
            FinishReason::ContentFilter => String::from_str("content_filter"),
        }
    }
}

/// One piece of a streamed answer: a token delta, or the end marker.
#[derive(Debug, Clone)]
pub struct StreamChunk {
    pub delta: String,
    pub finish_reason: Option<FinishReason>,
}

impl StreamChunk {
    pub fn delta(text: &str) -> (r: Self)
        ensures
            r.delta@ == text@,
            r.finish_reason is None,
    {
        StreamChunk { delta: String::from_str(text), finish_reason: None }
    }

    pub fn stop() -> (r: Self)
        ensures
            r.delta@ == Seq::<char>::empty(),
            r.finish_reason == Some(FinishReason::Stop),
    {
        StreamChunk { delta: String::new(), finish_reason: Some(FinishReason::Stop) }
    }

    pub fn is_terminal(&self) -> (r: bool)
        ensures
            r == self.finish_reason is Some,
    {
        self.finish_reason.is_some()
    }
}

} // verus!
