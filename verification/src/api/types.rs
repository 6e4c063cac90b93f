use vstd::prelude::*;

use crate::text::join;

verus! {

/// One block of structured message content.
pub struct ContentBlock {
    pub kind: String,
    pub text: String,
}

/// Message content: plain text, or blocks of which the text ones count.
pub enum MessageContent {
    Text(String),
    Blocks(Vec<ContentBlock>),
}

/// The texts of the blocks whose kind is `text`, in order.
pub open spec fn text_blocks(blocks: Seq<ContentBlock>) -> Seq<Seq<char>>
    decreases blocks.len(),
{
    if blocks.len() == 0 {
        seq![]
    } else if blocks.last().kind@ == "text"@ {
        text_blocks(blocks.drop_last()).push(blocks.last().text@)
    } else {
        text_blocks(blocks.drop_last())
    }
}

/// The flat text of message content: the text itself, or the text blocks
/// joined by newlines.
pub open spec fn content_text_of(c: MessageContent) -> Seq<char> {
    match c {
        MessageContent::Text(s) => s@,
        MessageContent::Blocks(bs) => join(text_blocks(bs@), "\n"@),
    }
}

fn blocks_text(blocks: &Vec<ContentBlock>) -> (r: String)
    ensures
        r@ == join(text_blocks(blocks@), "\n"@),
{
    let mut parts: Vec<Vec<char>> = Vec::new();
    let mut i: usize = 0;
    let text = String::from_str("text");
    while i < blocks.len()
        invariant
            i <= blocks.len(),
            text@ == "text"@,
            parts@.map_values(|p: Vec<char>| p@) == text_blocks(blocks@.take(i as int)),
        decreases blocks.len() - i,
    {
        assert(blocks@.take(i + 1).drop_last() =~= blocks@.take(i as int));
        assert(blocks@.take(i + 1).last() == blocks@[i as int]);
        if blocks[i].kind == text {
            let ghost before = parts@;
            parts.push(crate::text::chars_of(blocks[i].text.as_str()));
            assert(parts@.map_values(|p: Vec<char>| p@) =~= before.map_values(|p: Vec<char>| p@).push(
                blocks@[i as int].text@,
            ));
        }
        i = i + 1;
    }
    assert(blocks@.take(blocks.len() as int) =~= blocks@);
    crate::text::string_from_chars(
        crate::text::join_chars(&parts, &crate::text::chars_of("\n")).as_slice(),
    )
}

impl MessageContent {
    /// The flat text of this content.
    pub fn into_text(self) -> (r: String)
        ensures
            r@ == content_text_of(self),
    {
        match self {
            MessageContent::Text(s) => s,
            MessageContent::Blocks(blocks) => blocks_text(&blocks),
        }
    }

    /// The flat text of this content, leaving it in place.
    pub fn text(&self) -> (r: String)
        ensures
            r@ == content_text_of(*self),
    {
        match self {
            MessageContent::Text(s) => s.clone(),
            MessageContent::Blocks(blocks) => blocks_text(blocks),
        }
    }
}

impl Default for MessageContent {
    fn default() -> (r: Self)
        ensures
            r matches MessageContent::Text(s) && s@ == Seq::<char>::empty(),
    {
        MessageContent::Text(String::new())
    }
}

/// A chat message as the OpenAI API carries it.
pub struct ChatMessage {
    pub role: String,
    pub content: MessageContent,
    pub tool_call_id: Option<String>,
    pub tool_calls: Option<Vec<ApiToolCall>>,
}

impl ChatMessage {
    /// The flat text of the message's content.
    pub fn content_text(&self) -> (r: String)
        ensures
            r@ == content_text_of(self.content),
    {
        self.content.text()
    }
}

/// A tool offered in a request.
pub struct ApiToolDefinition {
    pub kind: String,
    pub function: ApiFunctionDefinition,
}

pub struct ApiFunctionDefinition {
    pub name: String,
    pub description: String,
    pub parameters: serde_json::Value,
}

/// A tool call as the OpenAI API carries it.
pub struct ApiToolCall {
    pub id: String,
    pub kind: String,
    pub function: ApiFunctionCall,
}

pub struct ApiFunctionCall {
    pub name: String,
    pub arguments: String,
}

/// One event of a streamed chat completion.
pub struct ChatCompletionChunk {
    pub id: String,
    pub object: &'static str,
    pub model: String,
    pub choices: Vec<ChunkChoice>,
}

pub struct ChunkChoice {
    pub index: u32,
    pub delta: ChunkDelta,
    pub finish_reason: Option<String>,
}

pub struct ChunkDelta {
    pub role: Option<String>,
    pub content: Option<String>,
}

/// A complete chat completion.
pub struct ChatCompletionResponse {
    pub id: String,
    pub object: &'static str,
    pub model: String,
    pub choices: Vec<CompletionChoice>,
    pub usage: Usage,
}

pub struct CompletionChoice {
    pub index: u32,
    pub message: ChatMessage,
    pub finish_reason: String,
}

pub struct Usage {
    pub prompt_tokens: u32,
    pub completion_tokens: u32,
    pub total_tokens: u32,
}

/// The answer to a model listing.
pub struct ModelListResponse {
    pub object: &'static str,
    pub data: Vec<ModelObject>,
}

pub struct ModelObject {
    pub id: String,
    pub object: &'static str,
    pub owned_by: String,
}

} // verus!
