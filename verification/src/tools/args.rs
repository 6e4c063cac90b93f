//! Reading a tool call's JSON arguments.
use vstd::prelude::*;

use crate::entities::tool::{ToolCall, ToolError};
use crate::json::{json_object_members, members_view, parse_json, str_field, str_member, JsonMember};

verus! {

/// The string argument `key` of arguments written as `text`: `None` when
/// the text is not JSON; otherwise the member's text if it is a string.
pub open spec fn arg_str(text: Seq<char>, key: Seq<char>) -> Option<Option<Seq<char>>> {
    match json_object_members(text) {
        None => None,
        Some(ms) => Some(str_field(ms, key)),
    }
}

/// The message for a required argument that is missing.
pub open spec fn missing_field_text(key: Seq<char>) -> Seq<char> {
    "missing '"@ + key + "' field"@
}

/// The arguments of a call, read as a JSON object; text that is not JSON is
/// an invalid-arguments error.
pub fn call_arguments(call: &ToolCall) -> (r: Result<Vec<(String, JsonMember)>, ToolError>)
    ensures
        match json_object_members(call.function.arguments@) {
            None => r matches Err(ToolError::InvalidArguments(_)),
            Some(ms) => r matches Ok(v) && members_view(v@) == ms,
        },
{
    match parse_json(call.function.arguments.as_str()) {
        Ok(p) => Ok(p.members),
        Err(e) => Err(ToolError::InvalidArguments(e)),
    }
}

/// A required string argument, or `missing '<key>' field`.
pub fn required_str(args: &Vec<(String, JsonMember)>, key: &str) -> (r: Result<String, ToolError>)
    ensures
        match str_field(members_view(args@), key@) {
            Some(s) => r matches Ok(t) && t@ == s,
            None => r matches Err(ToolError::InvalidArguments(m)) && m@ == missing_field_text(key@),
        },
{
    match str_member(args, key) {
        Some(s) => Ok(s),
        None => Err(
            ToolError::InvalidArguments(
                String::from_str("missing '").concat(key).concat("' field"),
            ),
        ),
    }
}

/// A required string argument of a call.
pub fn required_arg(call: &ToolCall, key: &str) -> (r: Result<String, ToolError>)
    ensures
        match arg_str(call.function.arguments@, key@) {
            None => r matches Err(ToolError::InvalidArguments(_)),
            Some(None) => r matches Err(ToolError::InvalidArguments(m)) && m@ == missing_field_text(key@),
            Some(Some(s)) => r matches Ok(t) && t@ == s,
        },
{
    let args = call_arguments(call)?;
    required_str(&args, key)
}

/// An optional string argument of a call, with a default.
pub fn optional_arg(call: &ToolCall, key: &str, default: &str) -> (r: Result<String, ToolError>)
    ensures
        match arg_str(call.function.arguments@, key@) {
            None => r matches Err(ToolError::InvalidArguments(_)),
            Some(None) => r matches Ok(t) && t@ == default@,
            Some(Some(s)) => r matches Ok(t) && t@ == s,
        },
{
    let args = call_arguments(call)?;
    match str_member(&args, key) {
        Some(s) => Ok(s),
        None => Ok(String::from_str(default)),
    }
}

} // verus!
