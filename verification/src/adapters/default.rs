use vstd::prelude::*;

use crate::adapters::{build_tool_instructions, standard_tool_instructions};
use crate::ports::model_adapter::{strs_view, ModelAdapter};

verus! {

/// Fallback adapter for any model not matched by a more specific adapter.
///
/// No content cleaning; generic tool-call instructions compatible with
/// models that follow standard OpenAI function-calling conventions.
pub struct DefaultAdapter;

impl ModelAdapter for DefaultAdapter {
    open spec fn spec_matches(&self, model: Seq<char>) -> bool {
        true
    }

    open spec fn spec_clean_content(&self, text: Seq<char>) -> Seq<char> {
        text
    }

    open spec fn spec_tool_instructions(&self, workspace_root: Seq<char>, tools: Seq<Seq<char>>) -> Seq<char> {
        standard_tool_instructions(workspace_root, tools)
    }

    fn matches(&self, model: &str) -> (r: bool) {
        true
    }

    fn clean_content(&self, text: String) -> (r: String) {
        text
    }

    fn tool_instructions(&self, workspace_root: &str, tools: &[&str]) -> (r: String) {
        build_tool_instructions(workspace_root, tools)
    }
}

} // verus!
