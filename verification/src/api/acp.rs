//! The Agent Client Protocol endpoint: which method a call names, and how
//! a prompt becomes a user turn.
use vstd::prelude::*;

use crate::text::{chars_of, join, join_chars, string_from_chars};

verus! {

/// The JSON-RPC methods the endpoint serves.
#[derive(Debug, Clone, Copy, PartialEq, Eq, Structural)]
pub enum AcpMethod {
    Initialize,
    SessionNew,
    SessionPrompt,
    SessionClose,
    Unknown,
}

/// The method a JSON-RPC call names.
pub open spec fn method_of(name: Seq<char>) -> AcpMethod {
    if name == "initialize"@ {
        AcpMethod::Initialize
    } else if name == "session/new"@ {
        AcpMethod::SessionNew
    } else if name == "session/prompt"@ {
        AcpMethod::SessionPrompt
    } else if name == "session/close"@ {
        AcpMethod::SessionClose
    } else {
        AcpMethod::Unknown
    }
}

pub fn acp_method(name: &str) -> (r: AcpMethod)
    ensures
        r == method_of(name@),
{
    let n = String::from_str(name);
    if n == String::from_str("initialize") {
        AcpMethod::Initialize
    } else if n == String::from_str("session/new") {
        AcpMethod::SessionNew
    } else if n == String::from_str("session/prompt") {
        AcpMethod::SessionPrompt
    } else if n == String::from_str("session/close") {
        AcpMethod::SessionClose
    } else {
        AcpMethod::Unknown
    }
}

/// JSON-RPC error code: the method does not exist.
pub const METHOD_NOT_FOUND: i32 = -32601;

/// JSON-RPC error code: the parameters are invalid.
pub const INVALID_PARAMS: i32 = -32602;

/// Error code: the session is not known.
pub const SESSION_NOT_FOUND: i32 = -32001;

/// Error code: the model could not answer.
pub const PROMPT_FAILED: i32 = -32000;

/// The message for an unknown method.
pub fn method_not_found_message(method: &str) -> (r: String)
    ensures
        r@ == "method not found: "@ + method@,
{
    String::from_str("method not found: ").concat(method)
}

/// The texts of a prompt's text blocks (others are `None`), in order.
pub open spec fn present_texts(blocks: Seq<Option<String>>) -> Seq<Seq<char>>
    decreases blocks.len(),
{
    if blocks.len() == 0 {
        seq![]
    } else {
        match blocks.last() {
            Some(t) => present_texts(blocks.drop_last()).push(t@),
            None => present_texts(blocks.drop_last()),
        }
    }
}

/// The user's text in a prompt: its text blocks joined by newlines; `None`
/// when that is empty, which the endpoint refuses.
pub fn prompt_text(blocks: &Vec<Option<String>>) -> (r: Option<String>)
    ensures
        match r {
            Some(t) => t@ == join(present_texts(blocks@), "\n"@) && t@.len() > 0,
            None => join(present_texts(blocks@), "\n"@).len() == 0,
        },
{
    let mut parts: Vec<Vec<char>> = Vec::new();
    let mut i: usize = 0;
    while i < blocks.len()
        invariant
            i <= blocks.len(),
            parts@.map_values(|p: Vec<char>| p@) == present_texts(blocks@.take(i as int)),
        decreases blocks.len() - i,
    {
        assert(blocks@.take(i + 1).drop_last() =~= blocks@.take(i as int));
        assert(blocks@.take(i + 1).last() == blocks@[i as int]);
        match &blocks[i] {
            Some(t) => {
                let ghost before = parts@;
                parts.push(chars_of(t.as_str()));
                assert(parts@.map_values(|p: Vec<char>| p@) =~= before.map_values(|p: Vec<char>| p@).push(
                    t@,
                ));
            },
            None => {},
        }
        i = i + 1;
    }
    assert(blocks@.take(blocks.len() as int) =~= blocks@);
    let joined = join_chars(&parts, &chars_of("\n"));
    if joined.len() == 0 {
        None
    } else {
        Some(string_from_chars(joined.as_slice()))
    }
}

} // verus!
