//! Built-in model adapters: Qwen, DeepSeek and the catch-all default.
pub mod deepseek;
pub mod default;
pub mod qwen;

pub use deepseek::DeepSeekAdapter;
pub use default::DefaultAdapter;
pub use qwen::QwenAdapter;

use vstd::prelude::*;

use crate::text::{chars_of, join, join_chars, string_from_chars};

verus! {

/// The tool-use instructions shared by the built-in adapters.
pub open spec fn standard_tool_instructions(root: Seq<char>, tools: Seq<Seq<char>>) -> Seq<char> {
    "You are a helpful coding assistant with access to the user's workspace.\nWorkspace root: "@
        + root + "\nAvailable tools: "@ + join(tools, ", "@)
        + "\n\nWhen you need to read, search, or modify files, call the appropriate tool.\nAfter receiving tool results, answer the user's question naturally in plain text.\nDo NOT wrap your answers in JSON. Do NOT reproduce file contents verbatim unless explicitly asked.\nFile paths must be relative to the workspace root."@
}

/// The characters of each string slice.
pub fn strs_to_chars(items: &[&str]) -> (r: Vec<Vec<char>>)
    ensures
        r@.map_values(|v: Vec<char>| v@) == items@.map_values(|t: &str| t@),
{
    let mut out: Vec<Vec<char>> = Vec::new();
    let mut i: usize = 0;
    while i < items.len()
        invariant
            i <= items.len(),
            out@.map_values(|v: Vec<char>| v@) == items@.take(i as int).map_values(|t: &str| t@),
        decreases items.len() - i,
    {
        let ghost prev = out@;
        out.push(chars_of(items[i]));
        proof {
            assert(out@.map_values(|v: Vec<char>| v@) =~= prev.map_values(|v: Vec<char>| v@).push(
                items@[i as int]@,
            ));
            assert(items@.take(i + 1).map_values(|t: &str| t@) =~= items@.take(i as int).map_values(
                |t: &str| t@,
            ).push(items@[i as int]@));
        }
        i = i + 1;
    }
    assert(items@.take(items.len() as int) =~= items@);
    out
}

/// Builds the shared tool-use instructions.
pub fn build_tool_instructions(workspace_root: &str, tools: &[&str]) -> (r: String)
    ensures
        r@ == standard_tool_instructions(workspace_root@, tools@.map_values(|t: &str| t@)),
{
    let names = strs_to_chars(tools);
    let sep = chars_of(", ");
    let list = join_chars(&names, &sep);
    let list_text = string_from_chars(list.as_slice());
    String::from_str(
        "You are a helpful coding assistant with access to the user's workspace.\nWorkspace root: ",
    ).concat(workspace_root).concat("\nAvailable tools: ").concat(list_text.as_str()).concat(
        "\n\nWhen you need to read, search, or modify files, call the appropriate tool.\nAfter receiving tool results, answer the user's question naturally in plain text.\nDo NOT wrap your answers in JSON. Do NOT reproduce file contents verbatim unless explicitly asked.\nFile paths must be relative to the workspace root.",
    )
}

} // verus!
