use vstd::prelude::*;

use crate::entities::conversation::new_uuid_v4;
use crate::text::{hex32, hex_digits, is_lower_hex, lemma_hex_digits_are_hex, string_from_chars};

verus! {

/// A JSON document as produced and consumed by `serde_json`; carried through
/// the library without being inspected.
#[verifier::external_type_specification]
#[verifier::external_body]
pub struct ExJsonValue(serde_json::Value);

/// `Clone` for `serde_json::Value` (a derived, structural deep copy): the copy
/// is the same JSON value.
pub assume_specification[ <serde_json::Value as Clone>::clone ](v: &serde_json::Value) -> (r:
    serde_json::Value)
    ensures
        r == *v,
;

/// The function part of a tool call: its name and its arguments as JSON text.
#[derive(Debug, Clone, PartialEq, Eq)]
pub struct FunctionCall {
    pub name: String,
    pub arguments: String,
}

/// A normalized request from the model to run one tool.
#[derive(Debug, Clone, PartialEq, Eq)]
pub struct ToolCall {
    pub id: String,
    pub kind: String,
    pub function: FunctionCall,
}

impl FunctionCall {
    pub fn duplicate(&self) -> (r: Self)
        ensures
            r.name@ == self.name@,
            r.arguments@ == self.arguments@,
    {
        FunctionCall { name: self.name.clone(), arguments: self.arguments.clone() }
    }
}

/// A tool call whose fields have the given texts.
pub open spec fn is_tool_call(c: ToolCall, id: Seq<char>, name: Seq<char>, args: Seq<char>) -> bool {
    &&& c.id@ == id
    &&& c.kind@ == "function"@
    &&& c.function.name@ == name
    &&& c.function.arguments@ == args
}

impl ToolCall {
    pub fn new(id: &str, name: &str, arguments: &str) -> (r: Self)
        ensures
            is_tool_call(r, id@, name@, arguments@),
    {
        ToolCall {
            id: String::from_str(id),
            kind: String::from_str("function"),
            function: FunctionCall { name: String::from_str(name), arguments: String::from_str(arguments) },
        }
    }

    pub fn duplicate(&self) -> (r: Self)
        ensures
            r.id@ == self.id@,
            r.kind@ == self.kind@,
            r.function.name@ == self.function.name@,
            r.function.arguments@ == self.function.arguments@,
    {
        ToolCall { id: self.id.clone(), kind: self.kind.clone(), function: self.function.duplicate() }
    }
}

/// Two tool calls with the same id, kind, name and arguments.
pub open spec fn same_call(a: ToolCall, b: ToolCall) -> bool {
    &&& a.id@ == b.id@
    &&& a.kind@ == b.kind@
    &&& a.function.name@ == b.function.name@
    &&& a.function.arguments@ == b.function.arguments@
}

/// Two lists of the same tool calls, in the same order.
pub open spec fn same_calls(a: Seq<ToolCall>, b: Seq<ToolCall>) -> bool {
    a.len() == b.len() && forall|i: int| 0 <= i < a.len() ==> same_call(#[trigger] a[i], b[i])
}

/// A copy of a list of tool calls.
pub fn duplicate_calls(calls: &Vec<ToolCall>) -> (r: Vec<ToolCall>)
    ensures
        same_calls(r@, calls@),
{
    let mut out: Vec<ToolCall> = Vec::new();
    let mut i: usize = 0;
    while i < calls.len()
        invariant
            i <= calls.len(),
            out.len() == i,
            forall|j: int| 0 <= j < i ==> same_call(#[trigger] out@[j], calls@[j]),
        decreases calls.len() - i,
    {
        out.push(calls[i].duplicate());
        i = i + 1;
    }
    out
}

/// The form of a generated tool call id: `call_` and 32 lowercase
/// hexadecimal digits.
pub open spec fn is_call_id(id: Seq<char>) -> bool {
    &&& id.len() == 37
    &&& id.take(5) == "call_"@
    &&& forall|i: int| 5 <= i < 37 ==> is_lower_hex(#[trigger] id[i])
}

/// A fresh tool call id: `call_` and the simple hexadecimal form of a random
/// version-4 UUID.
pub fn new_tool_call_id() -> (r: String)
    ensures
        is_call_id(r@),
{
    let u = new_uuid_v4();
    let digits = hex32(u);
    proof {
        lemma_hex_digits_are_hex(u as nat, 32);
    }
    let r = String::from_str("call_").concat(string_from_chars(digits.as_slice()).as_str());
    proof {
        reveal_strlit("call_");
        assert(r@.take(5) =~= "call_"@);
        assert forall|i: int| 5 <= i < 37 implies is_lower_hex(#[trigger] r@[i]) by {
            assert(r@[i] == digits@[i - 5]);
        }
    }
    r
}

/// The function a tool offers: name, description and JSON-Schema parameters.
#[derive(Debug, Clone)]
pub struct ToolFunctionDefinition {
    pub name: String,
    pub description: String,
    pub parameters: serde_json::Value,
}

/// A tool the model may call, as advertised in a request.
#[derive(Debug, Clone)]
pub struct ToolDefinition {
    pub kind: String,
    pub function: ToolFunctionDefinition,
}

impl ToolDefinition {
    pub fn function(name: &str, description: &str, parameters: serde_json::Value) -> (r: Self)
        ensures
            r.kind@ == "function"@,
            r.function.name@ == name@,
            r.function.description@ == description@,
            r.function.parameters == parameters,
    {
        ToolDefinition {
            kind: String::from_str("function"),
            function: ToolFunctionDefinition {
                name: String::from_str(name),
                description: String::from_str(description),
                parameters,
            },
        }
    }
}

/// Why a tool could not produce a result.
#[derive(Debug, Clone, PartialEq, Eq)]
pub enum ToolError {
    NotFound(String),
    Unauthorized(String),
    InvalidArguments(String),
    ExecutionFailed(String),
    Timeout,
}

/// The message of a tool error.
pub open spec fn tool_error_text(e: ToolError) -> Seq<char> {
    match e {
        ToolError::NotFound(s) => "not found: "@ + s@,
        ToolError::Unauthorized(s) => "unauthorized: "@ + s@,
        ToolError::InvalidArguments(s) => "invalid arguments: "@ + s@,
        ToolError::ExecutionFailed(s) => "execution failed: "@ + s@,
        ToolError::Timeout => "timeout"@,
    }
}

impl ToolError {
    /// The human-readable message of this error.
    pub fn to_string(&self) -> (r: String)
        ensures
            r@ == tool_error_text(*self),
    {
        match self {
            ToolError::NotFound(s) => String::from_str("not found: ").concat(s.as_str()),
            ToolError::Unauthorized(s) => String::from_str("unauthorized: ").concat(s.as_str()),
            ToolError::InvalidArguments(s) => String::from_str("invalid arguments: ").concat(
                s.as_str(),
            ),
            ToolError::ExecutionFailed(s) => String::from_str("execution failed: ").concat(
                s.as_str(),
            ),
            ToolError::Timeout => String::from_str("timeout"),
        }
    }
}

/// What running a tool call produced, addressed to the call by its id.
#[derive(Debug, Clone, PartialEq, Eq)]
pub struct ToolResult {
    pub tool_call_id: String,
    pub content: String,
    pub is_error: bool,
}

impl ToolResult {
    pub fn ok(tool_call_id: String, content: String) -> (r: Self)
        ensures
            r.tool_call_id == tool_call_id,
            r.content == content,
            !r.is_error,
    {
        ToolResult { tool_call_id, content, is_error: false }
    }

    pub fn err(tool_call_id: String, error: ToolError) -> (r: Self)
        ensures
            r.tool_call_id == tool_call_id,
            r.content@ == tool_error_text(error),
            r.is_error,
    {
        ToolResult { tool_call_id, content: error.to_string(), is_error: true }
    }
}

} // verus!
