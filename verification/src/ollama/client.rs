//! What the Ollama client sends and how it reads the answers.
use vstd::prelude::*;

use crate::entities::conversation::{ConversationRequest, ConversationResponse};
use crate::entities::message::{part_text, role_name, ContentPart, Message};
use crate::entities::model::{ModelDescriptor, ModelId};
use crate::entities::tool::{ToolCall, ToolDefinition};
use crate::json::{empty_json_object, json_value, json_written, parse_json};
use crate::ollama::types::{
    OllamaChatChunk, OllamaChatMessage, OllamaFunction, OllamaTool, OllamaToolCall,
    OllamaToolFunction,
};
use crate::ports::llm_backend::BackendError;
use crate::tools::normalizer::{normalizes_to, ToolCallNormalizer};

verus! {

/// Where the Ollama server listens, and how many requests may run at once.
pub struct OllamaClientConfig {
    pub base_url: String,
    pub max_concurrent: usize,
}

/// The chat endpoint under a base URL.
pub fn chat_url(base_url: &str) -> (r: String)
    ensures
        r@ == base_url@ + "/api/chat"@,
{
    String::from_str(base_url).concat("/api/chat")
}

/// The model-list endpoint under a base URL.
pub fn tags_url(base_url: &str) -> (r: String)
    ensures
        r@ == base_url@ + "/api/tags"@,
{
    String::from_str(base_url).concat("/api/tags")
}

/// The text of all parts of a message, joined without separators.
pub open spec fn parts_text(parts: Seq<ContentPart>) -> Seq<char>
    decreases parts.len(),
{
    if parts.len() == 0 {
        seq![]
    } else {
        parts_text(parts.drop_last()) + part_text(parts.last())
    }
}

fn joined_parts(parts: &Vec<ContentPart>) -> (r: String)
    ensures
        r@ == parts_text(parts@),
{
    let mut out = String::new();
    let mut i: usize = 0;
    while i < parts.len()
        invariant
            i <= parts.len(),
            out@ == parts_text(parts@.take(i as int)),
        decreases parts.len() - i,
    {
        match &parts[i] {
            ContentPart::Text(s) => {
                out.append(s.as_str());
            },
        }
        assert(parts@.take(i + 1).drop_last() =~= parts@.take(i as int));
        i = i + 1;
    }
    assert(parts@.take(parts.len() as int) =~= parts@);
    out
}

/// An Ollama tool call that carries `c`: its name, and its arguments as the
/// JSON value their text holds, or an empty object when the text is not
/// JSON.
pub open spec fn carries_call(o: OllamaToolCall, c: ToolCall) -> bool {
    &&& o.function.name@ == c.function.name@
    &&& match json_value(c.function.arguments@) {
        Some(v) => o.function.arguments == v,
        None => json_written(o.function.arguments) == "{}"@,
    }
}

/// An Ollama message that carries `m`: its role's wire name, its joined
/// text, its tool calls by name in order, and the id of the call it answers.
pub open spec fn carries(o: OllamaChatMessage, m: Message) -> bool {
    &&& o.role@ == role_name(m.role)
    &&& o.content@ == parts_text(m.content@)
    &&& match m.tool_calls {
        None => o.tool_calls is None,
        Some(calls) => o.tool_calls matches Some(oc) && oc.len() == calls.len() && forall|i: int|
            0 <= i < calls.len() ==> carries_call(#[trigger] oc@[i], calls@[i]),
    }
    &&& match m.tool_call_id {
        None => o.tool_call_id is None,
        Some(id) => o.tool_call_id matches Some(oid) && oid@ == id@,
    }
}

/// A domain tool call as Ollama takes it: the arguments text parsed as JSON,
/// or an empty object when it is not JSON.
fn ollama_call(c: &ToolCall) -> (r: OllamaToolCall)
    ensures
        carries_call(r, *c),
{
    let arguments = match parse_json(c.function.arguments.as_str()) {
        Ok(p) => p.value,
        Err(_) => empty_json_object(),
    };
    OllamaToolCall { function: OllamaFunction { name: c.function.name.clone(), arguments } }
}

/// The sampling options of a request: its temperature (as IEEE-754 bits)
/// and its answer length; none when it sets neither.
pub fn sampling_options(req: &ConversationRequest) -> (r: Option<(Option<u32>, Option<u32>)>)
    ensures
        req.temperature_bits is None && req.max_tokens is None ==> r is None,
        !(req.temperature_bits is None && req.max_tokens is None) ==> r == Some(
            (req.temperature_bits, req.max_tokens),
        ),
{
    if req.temperature_bits.is_none() && req.max_tokens.is_none() {
        None
    } else {
        Some((req.temperature_bits, req.max_tokens))
    }
}

/// The messages of a request as Ollama takes them.
pub fn domain_messages(req: &ConversationRequest) -> (r: Vec<OllamaChatMessage>)
    ensures
        r.len() == req.messages.len(),
        forall|i: int| 0 <= i < r.len() ==> carries(#[trigger] r@[i], req.messages@[i]),
{
    let mut out: Vec<OllamaChatMessage> = Vec::new();
    let mut i: usize = 0;
    while i < req.messages.len()
        invariant
            i <= req.messages.len(),
            out.len() == i,
            forall|j: int| 0 <= j < i ==> carries(#[trigger] out@[j], req.messages@[j]),
        decreases req.messages.len() - i,
    {
        let m = &req.messages[i];
        let tool_calls = match &m.tool_calls {
            None => None,
            Some(calls) => {
                let mut oc: Vec<OllamaToolCall> = Vec::new();
                let mut k: usize = 0;
                while k < calls.len()
                    invariant
                        k <= calls.len(),
                        oc.len() == k,
                        forall|j: int| 0 <= j < k ==> carries_call(#[trigger] oc@[j], calls@[j]),
                    decreases calls.len() - k,
                {
                    oc.push(ollama_call(&calls[k]));
                    k = k + 1;
                }
                Some(oc)
            },
        };
        let tool_call_id = match &m.tool_call_id {
            None => None,
            Some(id) => Some(id.clone()),
        };
        out.push(
            OllamaChatMessage {
                role: m.role.to_string(),
                content: joined_parts(&m.content),
                tool_calls,
                tool_call_id,
            },
        );
        i = i + 1;
    }
    out
}

/// Tool definitions as Ollama takes them; none when the request has none.
pub fn domain_tools(defs: &Vec<ToolDefinition>) -> (r: Option<Vec<OllamaTool>>)
    ensures
        defs.len() == 0 ==> r is None,
        defs.len() > 0 ==> (r matches Some(v) && v.len() == defs.len() && forall|i: int|
            0 <= i < defs.len() ==> {
                &&& (#[trigger] v@[i]).kind@ == defs@[i].kind@
                &&& v@[i].function.name@ == defs@[i].function.name@
                &&& v@[i].function.description@ == defs@[i].function.description@
                &&& v@[i].function.parameters == defs@[i].function.parameters
            }),
{
    if defs.len() == 0 {
        return None;
    }
    let mut v: Vec<OllamaTool> = Vec::new();
    let mut i: usize = 0;
    while i < defs.len()
        invariant
            i <= defs.len(),
            v.len() == i,
            forall|j: int|
                0 <= j < i ==> {
                    &&& (#[trigger] v@[j]).kind@ == defs@[j].kind@
                    &&& v@[j].function.name@ == defs@[j].function.name@
                    &&& v@[j].function.description@ == defs@[j].function.description@
                    &&& v@[j].function.parameters == defs@[j].function.parameters
                },
        decreases defs.len() - i,
    {
        let d = &defs[i];
        v.push(
            OllamaTool {
                kind: d.kind.clone(),
                function: OllamaToolFunction {
                    name: d.function.name.clone(),
                    description: d.function.description.clone(),
                    parameters: d.function.parameters.clone(),
                },
            },
        );
        i = i + 1;
    }
    Some(v)
}

/// The models Ollama lists, as descriptors owned by `ollama`.
pub fn model_descriptors(names: &Vec<String>) -> (r: Vec<ModelDescriptor>)
    ensures
        r.len() == names.len(),
        forall|i: int|
            0 <= i < names.len() ==> {
                &&& (#[trigger] r@[i]).id.0@ == names@[i]@
                &&& r@[i].owned_by@ == "ollama"@
                &&& r@[i].description is None
                &&& r@[i].max_tokens is None
            },
{
    let mut out: Vec<ModelDescriptor> = Vec::new();
    let mut i: usize = 0;
    while i < names.len()
        invariant
            i <= names.len(),
            out.len() == i,
            forall|j: int|
                0 <= j < i ==> {
                    &&& (#[trigger] out@[j]).id.0@ == names@[j]@
                    &&& out@[j].owned_by@ == "ollama"@
                    &&& out@[j].description is None
                    &&& out@[j].max_tokens is None
                },
        decreases names.len() - i,
    {
        out.push(
            ModelDescriptor {
                id: ModelId::new(names[i].as_str()),
                owned_by: String::from_str("ollama"),
                description: None,
                max_tokens: None,
            },
        );
        i = i + 1;
    }
    out
}

/// The answer to a non-streamed request: the final line's content, with the
/// tool calls the normalizer finds in it, under the request's id and model.
pub fn response_from_chunk(request: ConversationRequest, chunk: OllamaChatChunk) -> (r: Result<
    ConversationResponse,
    BackendError,
>)
    ensures
        r matches Ok(resp) ==> resp.id == request.id && resp.model == request.model
            && resp.content == chunk.message.content && resp.prompt_tokens == 0
            && resp.completion_tokens == 0,
        normalizes_to(
            chunk.message,
            match r {
                Ok(resp) => Ok(resp.tool_calls),
                Err(e) => Err(e),
            },
        ),
{
    let tool_calls = ToolCallNormalizer::normalize(&chunk.message)?;
    Ok(
        ConversationResponse {
            id: request.id,
            model: request.model,
            content: chunk.message.content,
            prompt_tokens: 0,
            completion_tokens: 0,
            tool_calls,
        },
    )
}

} // verus!
