use vstd::prelude::*;

use crate::entities::message::Message;
use crate::entities::model::ModelId;
use crate::entities::tool::{ToolCall, ToolDefinition};

verus! {

/// A fresh random identifier: the 128-bit value of a version-4 UUID
/// (`uuid::Uuid::new_v4().as_u128()`).  Version and variant bits are fixed by
/// the UUID standard; the other 122 bits are random.
#[verifier::external_body]
pub fn new_uuid_v4() -> (r: u128)
    ensures
        (r >> 76u128) & 0xfu128 == 4,
        (r >> 62u128) & 0x3u128 == 2,
{
    uuid::Uuid::new_v4().as_u128()
}

/// A request for one model turn.
///
/// `temperature_bits` holds the IEEE-754 bit pattern of the sampling
/// temperature, which the library only carries through to the backend.
#[derive(Debug, Clone)]
pub struct ConversationRequest {
    pub id: u128,
    pub model: ModelId,
    pub messages: Vec<Message>,
    pub stream: bool,
    pub temperature_bits: Option<u32>,
    pub max_tokens: Option<u32>,
    pub tool_definitions: Vec<ToolDefinition>,
}

impl ConversationRequest {
    /// A streaming request with a fresh id, no sampling options and no tools.
    pub fn new(model: ModelId, messages: Vec<Message>) -> (r: Self)
        ensures
            r.model == model,
            r.messages == messages,
            r.stream,
            r.temperature_bits is None,
            r.max_tokens is None,
            r.tool_definitions.len() == 0,
    {
        ConversationRequest {
            id: new_uuid_v4(),
            model,
            messages,
            stream: true,
            temperature_bits: None,
            max_tokens: None,
            tool_definitions: Vec::new(),
        }
    }

    pub fn has_tools(&self) -> (r: bool)
        ensures
            r == (self.tool_definitions.len() > 0),
    {
        self.tool_definitions.len() > 0
    }
}

/// The model's answer to one request.
#[derive(Debug, Clone)]
pub struct ConversationResponse {
    pub id: u128,
    pub model: ModelId,
    pub content: String,
    pub prompt_tokens: u32,
    pub completion_tokens: u32,
    pub tool_calls: Option<Vec<ToolCall>>,
}

/// The response asks for at least one tool call.
pub open spec fn requests_tools(r: ConversationResponse) -> bool {
    r.tool_calls matches Some(v) && v.len() > 0
}

impl ConversationResponse {
    pub fn is_tool_call(&self) -> (r: bool)
        ensures
            r == requests_tools(*self),
    {
        match &self.tool_calls {
            Some(v) => v.len() > 0,
            None => false,
        }
    }
}

} // verus!
