use vstd::prelude::*;

verus! {

/// A structured function call as Ollama reports it; the arguments are a
/// JSON value, not text.
pub struct OllamaFunction {
    pub name: String,
    pub arguments: serde_json::Value,
}

/// One structured tool call in an Ollama message.
pub struct OllamaToolCall {
    pub function: OllamaFunction,
}

/// The message part of an Ollama chat reply.
pub struct OllamaMessageContent {
    pub role: String,
    pub content: String,
    /// Present when Ollama returns structured tool calls.
    pub tool_calls: Option<Vec<OllamaToolCall>>,
}

/// A chat message sent to Ollama.
pub struct OllamaChatMessage {
    pub role: String,
    pub content: String,
    /// Tool calls emitted by the assistant; present only on assistant messages.
    pub tool_calls: Option<Vec<OllamaToolCall>>,
    /// Links a tool-result message to the call that produced it.
    pub tool_call_id: Option<String>,
}

/// The function part of a tool definition sent to Ollama.
pub struct OllamaToolFunction {
    pub name: String,
    pub description: String,
    pub parameters: serde_json::Value,
}

/// A tool definition sent to Ollama.
pub struct OllamaTool {
    pub kind: String,
    pub function: OllamaToolFunction,
}

/// One line of an Ollama chat reply.
pub struct OllamaChatChunk {
    pub model: String,
    pub message: OllamaMessageContent,
    pub done: bool,
    pub done_reason: Option<String>,
}

} // verus!
