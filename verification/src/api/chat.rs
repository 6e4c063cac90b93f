//! OpenAI chat completions: reading requests and shaping answers.
use vstd::prelude::*;

use crate::api::error::AppError;
use crate::api::types::{
    content_text_of, ApiFunctionCall, ApiToolCall, ApiToolDefinition, ChatCompletionChunk,
    ChatCompletionResponse, ChatMessage, ChunkChoice, ChunkDelta, CompletionChoice, MessageContent,
    Usage,
};
use crate::entities::conversation::{requests_tools, ConversationResponse};
use crate::entities::message::{is_text_message, is_tool_message, is_tool_request_message, Message, Role};
use crate::entities::stream_chunk::StreamChunk;
use crate::entities::tool::{is_tool_call, ToolCall, ToolDefinition};
use crate::ports::llm_backend::{backend_error_text, BackendError};
use crate::text::{chars_of, hex32, hex_digits, split_whitespace_chars, string_from_chars, words};

verus! {

/// The domain message `d` stands for the API message `m`: by role, with the
/// content's flat text; an assistant message with tool calls keeps only
/// the calls; a tool message answers its call id (empty when absent); any
/// other role is the user's.
pub open spec fn converted(m: ChatMessage, d: Message) -> bool {
    let t = content_text_of(m.content);
    if m.role@ == "system"@ {
        is_text_message(d, Role::System, t)
    } else if m.role@ == "assistant"@ {
        match m.tool_calls {
            Some(calls) => {
                &&& d.role == Role::Assistant
                &&& d.content.len() == 0
                &&& d.tool_call_id is None
                &&& d.tool_calls matches Some(dc) && dc.len() == calls.len() && forall|i: int|
                    0 <= i < calls.len() ==> is_tool_call(
                        #[trigger] dc@[i],
                        calls@[i].id@,
                        calls@[i].function.name@,
                        calls@[i].function.arguments@,
                    )
            },
            None => is_text_message(d, Role::Assistant, t),
        }
    } else if m.role@ == "tool"@ {
        is_tool_message(
            d,
            match m.tool_call_id {
                Some(id) => id@,
                None => Seq::<char>::empty(),
            },
            t,
        )
    } else {
        is_text_message(d, Role::User, t)
    }
}

fn convert_message(m: &ChatMessage) -> (r: Message)
    ensures
        converted(*m, r),
{
    let text = m.content_text();
    let system = String::from_str("system");
    let assistant = String::from_str("assistant");
    let tool = String::from_str("tool");
    if m.role == system {
        Message::system(text.as_str())
    } else if m.role == assistant {
        match &m.tool_calls {
            Some(calls) => {
                let mut dc: Vec<ToolCall> = Vec::new();
                let mut i: usize = 0;
                while i < calls.len()
                    invariant
                        i <= calls.len(),
                        dc.len() == i,
                        forall|j: int|
                            0 <= j < i ==> is_tool_call(
                                #[trigger] dc@[j],
                                calls@[j].id@,
                                calls@[j].function.name@,
                                calls@[j].function.arguments@,
                            ),
                    decreases calls.len() - i,
                {
                    let c = &calls[i];
                    dc.push(ToolCall::new(c.id.as_str(), c.function.name.as_str(), c.function.arguments.as_str()));
                    i = i + 1;
                }
                let r = Message::assistant_with_tool_calls(dc);
                assert(m.role@ != "system"@);
                r
            },
            None => Message::assistant(text.as_str()),
        }
    } else if m.role == tool {
        match &m.tool_call_id {
            Some(id) => Message::tool_result(id.as_str(), text.as_str()),
            None => {
                let empty = String::new();
                Message::tool_result(empty.as_str(), text.as_str())
            },
        }
    } else {
        Message::user(text.as_str())
    }
}

/// The domain messages of a request; an empty list is a bad request.
pub fn build_messages(messages: &Vec<ChatMessage>) -> (r: Result<Vec<Message>, AppError>)
    ensures
        messages.len() == 0 ==> (r matches Err(AppError::BadRequest(m)) && m@
            == "messages must not be empty"@),
        messages.len() > 0 ==> (r matches Ok(v) && v.len() == messages.len() && forall|i: int|
            0 <= i < messages.len() ==> converted(messages@[i], #[trigger] v@[i])),
{
    if messages.len() == 0 {
        return Err(AppError::BadRequest(String::from_str("messages must not be empty")));
    }
    let mut out: Vec<Message> = Vec::new();
    let mut i: usize = 0;
    while i < messages.len()
        invariant
            i <= messages.len(),
            out.len() == i,
            forall|j: int| 0 <= j < i ==> converted(messages@[j], #[trigger] out@[j]),
        decreases messages.len() - i,
    {
        out.push(convert_message(&messages[i]));
        i = i + 1;
    }
    Ok(out)
}

/// The domain tool definitions of a request's tools, field for field.
pub fn build_tool_definitions(tools: &Vec<ApiToolDefinition>) -> (r: Vec<ToolDefinition>)
    ensures
        r.len() == tools.len(),
        forall|i: int|
            0 <= i < tools.len() ==> {
                &&& (#[trigger] r@[i]).kind@ == "function"@
                &&& r@[i].function.name@ == tools@[i].function.name@
                &&& r@[i].function.description@ == tools@[i].function.description@
                &&& r@[i].function.parameters == tools@[i].function.parameters
            },
{
    let mut out: Vec<ToolDefinition> = Vec::new();
    let mut i: usize = 0;
    while i < tools.len()
        invariant
            i <= tools.len(),
            out.len() == i,
            forall|j: int|
                0 <= j < i ==> {
                    &&& (#[trigger] out@[j]).kind@ == "function"@
                    &&& out@[j].function.name@ == tools@[j].function.name@
                    &&& out@[j].function.description@ == tools@[j].function.description@
                    &&& out@[j].function.parameters == tools@[j].function.parameters
                },
        decreases tools.len() - i,
    {
        let t = &tools[i];
        out.push(
            ToolDefinition::function(
                t.function.name.as_str(),
                t.function.description.as_str(),
                t.function.parameters.clone(),
            ),
        );
        i = i + 1;
    }
    out
}

/// How a chat completion request is served.
#[derive(Debug, Clone, Copy, PartialEq, Eq, Structural)]
pub enum ChatRoute {
    /// The request offers tools: run the agent tool loop.
    ToolLoop,
    /// Stream the answer as server-sent events.
    Stream,
    /// Answer once, after reflection.
    Complete,
}

/// Requests with tools go to the tool loop; others stream unless they ask
/// not to.
pub fn chat_route(has_tools: bool, stream: Option<bool>) -> (r: ChatRoute)
    ensures
        has_tools ==> r == ChatRoute::ToolLoop,
        !has_tools && stream != Some(false) ==> r == ChatRoute::Stream,
        !has_tools && stream == Some(false) ==> r == ChatRoute::Complete,
{
    if has_tools {
        ChatRoute::ToolLoop
    } else {
        match stream {
            Some(false) => ChatRoute::Complete,
            _ => ChatRoute::Stream,
        }
    }
}

/// An identifier made of a prefix and the 32 hexadecimal digits of `id`.
pub fn prefixed_id(prefix: &str, id: u128) -> (r: String)
    ensures
        r@ == prefix@ + hex_digits(id as nat, 32),
{
    String::from_str(prefix).concat(string_from_chars(hex32(id).as_slice()).as_str())
}

/// The number of whitespace-separated words, as a `u32`
/// (`split_whitespace().count() as u32`).
pub fn word_count(text: &str) -> (r: u32)
    ensures
        r == words(text@).len() as u32,
{
    let w = split_whitespace_chars(&chars_of(text));
    assert(w@.map_values(|v: Vec<char>| v@).len() == w@.len());
    w.len() as u32
}

/// An API tool call carrying a domain tool call's fields.
pub open spec fn api_call_of(a: ApiToolCall, c: ToolCall) -> bool {
    a.id == c.id && a.kind == c.kind && a.function.name == c.function.name && a.function.arguments
        == c.function.arguments
}

/// A completion whose single choice is `message`, with usage counted from
/// the prompt tokens and the words of `content`.
pub open spec fn completion_shape(r: ChatCompletionResponse, id: u128, model: String, prompt_tokens: u32, content: Seq<char>, finish: Seq<char>) -> bool {
    &&& r.id@ == "chatcmpl-"@ + hex_digits(id as nat, 32)
    &&& r.object@ == "chat.completion"@
    &&& r.model == model
    &&& r.choices.len() == 1
    &&& r.choices@[0].index == 0
    &&& r.choices@[0].finish_reason@ == finish
    &&& r.choices@[0].message.role@ == "assistant"@
    &&& r.choices@[0].message.tool_call_id is None
    &&& r.usage.prompt_tokens == prompt_tokens
    &&& r.usage.completion_tokens == words(content).len() as u32
    &&& r.usage.total_tokens == vstd::wrapping::u32_specs::wrapping_add(
        prompt_tokens,
        words(content).len() as u32,
    )
}

/// The completion answered after the tool loop: the tool calls when the
/// model still asks for tools (finish reason `tool_calls`), otherwise its
/// text (finish reason `stop`).
pub fn tool_loop_completion(resp: ConversationResponse, model: String) -> (r: ChatCompletionResponse)
    ensures
        completion_shape(
            r,
            resp.id,
            model,
            resp.prompt_tokens,
            resp.content@,
            if requests_tools(resp) {
                "tool_calls"@
            } else {
                "stop"@
            },
        ),
        requests_tools(resp) ==> (r.choices@[0].message.tool_calls matches Some(ac) && ac.len()
            == resp.tool_calls->0.len() && forall|i: int|
            0 <= i < ac.len() ==> api_call_of(#[trigger] ac@[i], resp.tool_calls->0@[i]))
            && content_text_of(r.choices@[0].message.content) == Seq::<char>::empty(),
        !requests_tools(resp) ==> r.choices@[0].message.tool_calls is None && content_text_of(
            r.choices@[0].message.content,
        ) == resp.content@,
{
    let id = prefixed_id("chatcmpl-", resp.id);
    let is_tool = resp.is_tool_call();
    let tokens = word_count(resp.content.as_str());
    let prompt_tokens = resp.prompt_tokens;
    let message = if is_tool {
        let calls = match resp.tool_calls {
            Some(v) => v,
            None => Vec::new(),
        };
        let ghost cs = calls@;
        let mut api: Vec<ApiToolCall> = Vec::new();
        let mut rest = calls;
        assert(cs.skip(0) =~= cs);
        while rest.len() > 0
            invariant
                api.len() + rest.len() == cs.len(),
                rest@ == cs.skip(api.len() as int),
                forall|i: int| 0 <= i < api.len() ==> api_call_of(#[trigger] api@[i], cs[i]),
            decreases rest.len(),
        {
            let c = rest.remove(0);
            assert(c == cs[api.len() as int]);
            assert(rest@ =~= cs.skip(api.len() + 1));
            api.push(
                ApiToolCall {
                    id: c.id,
                    kind: c.kind,
                    function: ApiFunctionCall { name: c.function.name, arguments: c.function.arguments },
                },
            );
        }
        ChatMessage {
            role: String::from_str("assistant"),
            content: MessageContent::Text(String::new()),
            tool_call_id: None,
            tool_calls: Some(api),
        }
    } else {
        ChatMessage {
            role: String::from_str("assistant"),
            content: MessageContent::Text(resp.content),
            tool_call_id: None,
            tool_calls: None,
        }
    };
    let finish = if is_tool {
        String::from_str("tool_calls")
    } else {
        String::from_str("stop")
    };
    let mut choices: Vec<CompletionChoice> = Vec::new();
    choices.push(CompletionChoice { index: 0, message, finish_reason: finish });
    ChatCompletionResponse {
        id,
        object: "chat.completion",
        model,
        choices,
        usage: Usage {
            prompt_tokens,
            completion_tokens: tokens,
            total_tokens: prompt_tokens.wrapping_add(tokens),
        },
    }
}

/// The completion answered after reflection: the text, finish reason `stop`.
pub fn plain_completion(resp: ConversationResponse, model: String) -> (r: ChatCompletionResponse)
    ensures
        completion_shape(r, resp.id, model, resp.prompt_tokens, resp.content@, "stop"@),
        r.choices@[0].message.tool_calls is None,
        content_text_of(r.choices@[0].message.content) == resp.content@,
{
    let id = prefixed_id("chatcmpl-", resp.id);
    let tokens = word_count(resp.content.as_str());
    let prompt_tokens = resp.prompt_tokens;
    let message = ChatMessage {
        role: String::from_str("assistant"),
        content: MessageContent::Text(resp.content),
        tool_call_id: None,
        tool_calls: None,
    };
    let mut choices: Vec<CompletionChoice> = Vec::new();
    choices.push(CompletionChoice { index: 0, message, finish_reason: String::from_str("stop") });
    ChatCompletionResponse {
        id,
        object: "chat.completion",
        model,
        choices,
        usage: Usage {
            prompt_tokens,
            completion_tokens: tokens,
            total_tokens: prompt_tokens.wrapping_add(tokens),
        },
    }
}

/// A streamed chunk with one choice holding the given delta and finish reason.
pub open spec fn chunk_shape(c: ChatCompletionChunk, id: Seq<char>, model: Seq<char>, role: Option<Seq<char>>, content: Option<Seq<char>>, finish: Option<Seq<char>>) -> bool {
    &&& c.id@ == id
    &&& c.object@ == "chat.completion.chunk"@
    &&& c.model@ == model
    &&& c.choices.len() == 1
    &&& c.choices@[0].index == 0
    &&& match role {
        Some(x) => c.choices@[0].delta.role matches Some(y) && y@ == x,
        None => c.choices@[0].delta.role is None,
    }
    &&& match content {
        Some(x) => c.choices@[0].delta.content matches Some(y) && y@ == x,
        None => c.choices@[0].delta.content is None,
    }
    &&& match finish {
        Some(x) => c.choices@[0].finish_reason matches Some(y) && y@ == x,
        None => c.choices@[0].finish_reason is None,
    }
}

fn chunk(id: &str, model: &str, role: Option<String>, content: Option<String>, finish: Option<String>) -> (r: ChatCompletionChunk)
    ensures
        r.id@ == id@,
        r.object@ == "chat.completion.chunk"@,
        r.model@ == model@,
        r.choices.len() == 1,
        r.choices@[0].index == 0,
        r.choices@[0].delta.role == role,
        r.choices@[0].delta.content == content,
        r.choices@[0].finish_reason == finish,
{
    let mut choices: Vec<ChunkChoice> = Vec::new();
    choices.push(ChunkChoice { index: 0, delta: ChunkDelta { role, content }, finish_reason: finish });
    ChatCompletionChunk {
        id: String::from_str(id),
        object: "chat.completion.chunk",
        model: String::from_str(model),
        choices,
    }
}

/// The first event of a stream: the assistant role, no content.
pub fn initial_chunk(id: &str, model: &str) -> (r: ChatCompletionChunk)
    ensures
        chunk_shape(r, id@, model@, Some("assistant"@), None, None),
{
    chunk(id, model, Some(String::from_str("assistant")), None, None)
}

/// A content delta.
pub fn delta_chunk(id: &str, model: &str, text: String) -> (r: ChatCompletionChunk)
    ensures
        chunk_shape(r, id@, model@, None, Some(text@), None),
{
    chunk(id, model, None, Some(text), None)
}

/// The end of the answer: finish reason `stop`.
pub fn finish_chunk(id: &str, model: &str) -> (r: ChatCompletionChunk)
    ensures
        chunk_shape(r, id@, model@, None, None, Some("stop"@)),
{
    chunk(id, model, None, None, Some(String::from_str("stop")))
}

/// How the tool loop's answer is delivered.
pub enum LoopAnswer {
    /// A final answer, streamed as these chunks (then `[DONE]`).
    Streamed(Vec<ChatCompletionChunk>),
    /// A response still asking for tools at the pass limit, answered whole
    /// so that its tool calls reach the client.
    Whole(ChatCompletionResponse),
}

/// The tool loop's answer: a final answer streams as the role chunk, the
/// whole text as one delta, and the finish chunk, under `chatcmpl-` and
/// the answer's id; a response still asking for tools is answered whole,
/// as `tool_loop_completion` shapes it.
pub fn loop_answer(resp: ConversationResponse, model: String) -> (r: LoopAnswer)
    ensures
        !requests_tools(resp) ==> (r matches LoopAnswer::Streamed(chunks) && {
            let id = "chatcmpl-"@ + hex_digits(resp.id as nat, 32);
            &&& chunks.len() == 3
            &&& chunk_shape(chunks@[0], id, model@, Some("assistant"@), None, None)
            &&& chunk_shape(chunks@[1], id, model@, None, Some(resp.content@), None)
            &&& chunk_shape(chunks@[2], id, model@, None, None, Some("stop"@))
        }),
        requests_tools(resp) ==> (r matches LoopAnswer::Whole(c) && completion_shape(
            c,
            resp.id,
            model,
            resp.prompt_tokens,
            resp.content@,
            "tool_calls"@,
        ) && (c.choices@[0].message.tool_calls matches Some(ac) && ac.len() == resp.tool_calls->0.len()
            && forall|i: int| 0 <= i < ac.len() ==> api_call_of(#[trigger] ac@[i], resp.tool_calls->0@[i]))),
{
    if resp.is_tool_call() {
        return LoopAnswer::Whole(tool_loop_completion(resp, model));
    }
    let id = prefixed_id("chatcmpl-", resp.id);
    let mut chunks: Vec<ChatCompletionChunk> = Vec::new();
    chunks.push(initial_chunk(id.as_str(), model.as_str()));
    chunks.push(delta_chunk(id.as_str(), model.as_str(), resp.content));
    chunks.push(finish_chunk(id.as_str(), model.as_str()));
    LoopAnswer::Streamed(chunks)
}

/// What is sent for one item of the backend stream.
pub enum StreamEvent {
    /// A chunk, to be sent as JSON.
    Chunk(ChatCompletionChunk),
    /// A line of text, sent as it is.
    Text(String),
}

/// The event for one stream item: the finish chunk for the end marker, a
/// delta chunk for text, `[error] ` and the message for a backend error.
pub fn stream_event(id: &str, model: &str, item: Result<StreamChunk, BackendError>) -> (r: StreamEvent)
    ensures
        match item {
            Ok(c) => if c.finish_reason is Some {
                r matches StreamEvent::Chunk(k) && chunk_shape(k, id@, model@, None, None, Some("stop"@))
            } else {
                r matches StreamEvent::Chunk(k) && chunk_shape(k, id@, model@, None, Some(c.delta@), None)
            },
            Err(e) => r matches StreamEvent::Text(t) && t@ == "[error] "@ + backend_error_text(e),
        },
{
    match item {
        Ok(c) => {
            if c.is_terminal() {
                StreamEvent::Chunk(finish_chunk(id, model))
            } else {
                StreamEvent::Chunk(delta_chunk(id, model, c.delta))
            }
        },
        Err(e) => StreamEvent::Text(String::from_str("[error] ").concat(e.to_string().as_str())),
    }
}

} // verus!
