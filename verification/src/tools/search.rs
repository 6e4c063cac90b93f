//! The `search` tool, which runs ripgrep.
use vstd::prelude::*;

use crate::entities::tool::{ToolCall, ToolDefinition, ToolError};
use crate::json::{json_object_members, str_field, str_member};
use crate::ports::tool_runtime::ToolRuntime;
use crate::prompt::system_prompt::strings_view;
use crate::tools::args::{call_arguments, missing_field_text, required_str};
use crate::tools::paths::{join_path, joined};

verus! {

/// Searches file contents in the workspace with ripgrep.
pub struct SearchTool {
    pub workspace_root: String,
    pub ripgrep_bin: String,
}

/// The arguments of a search call: the required `query`, and the optional
/// `path` when it is a string.
pub open spec fn search_args_outcome(args: Seq<char>, r: Result<(String, Option<String>), ToolError>) -> bool {
    match json_object_members(args) {
        None => r matches Err(ToolError::InvalidArguments(_)),
        Some(ms) => match str_field(ms, "query"@) {
            None => r matches Err(ToolError::InvalidArguments(m)) && m@ == missing_field_text("query"@),
            Some(q) => r matches Ok(t) && t.0@ == q && match str_field(ms, "path"@) {
                Some(p) => t.1 matches Some(s) && s@ == p,
                None => t.1 is None,
            },
        },
    }
}

/// The ripgrep arguments for a query in a directory.
pub open spec fn rg_args_spec(query: Seq<char>, dir: Seq<char>) -> Seq<Seq<char>> {
    seq!["--line-number"@, "--no-heading"@, "--color=never"@, "--max-count=50"@, query, dir]
}

impl SearchTool {
    pub fn new(workspace_root: &str, ripgrep_bin: &str) -> (r: Self)
        ensures
            r.workspace_root@ == workspace_root@,
            r.ripgrep_bin@ == ripgrep_bin@,
    {
        SearchTool { workspace_root: String::from_str(workspace_root), ripgrep_bin: String::from_str(ripgrep_bin) }
    }

    /// The query and optional sub-path a call asks for.
    pub fn arguments(&self, call: &ToolCall) -> (r: Result<(String, Option<String>), ToolError>)
        ensures
            search_args_outcome(call.function.arguments@, r),
    {
        let args = call_arguments(call)?;
        let query = required_str(&args, "query")?;
        let path = str_member(&args, "path");
        Ok((query, path))
    }

    /// The directory searched: the sub-path under the workspace root, or the
    /// root itself.
    pub fn search_dir(&self, path: &Option<String>) -> (r: String)
        ensures
            match path {
                Some(p) => r@ == joined(self.workspace_root@, p@),
                None => r@ == self.workspace_root@,
            },
    {
        match path {
            Some(p) => join_path(self.workspace_root.as_str(), p.as_str()),
            None => self.workspace_root.clone(),
        }
    }

    /// The arguments ripgrep is run with.
    pub fn rg_args(query: &str, dir: &str) -> (r: Vec<String>)
        ensures
            strings_view(r@) == rg_args_spec(query@, dir@),
    {
        let mut v: Vec<String> = Vec::new();
        v.push(String::from_str("--line-number"));
        v.push(String::from_str("--no-heading"));
        v.push(String::from_str("--color=never"));
        v.push(String::from_str("--max-count=50"));
        v.push(String::from_str(query));
        v.push(String::from_str(dir));
        assert(strings_view(v@) =~= rg_args_spec(query@, dir@));
        v
    }

    /// What a finished ripgrep run reports: exit code 2 is an error with its
    /// stderr; otherwise the matches on stdout (empty when none).
    pub fn search_result(code: Option<i32>, stdout: &str, stderr: &str) -> (r: Result<String, ToolError>)
        ensures
            code == Some(2i32) ==> (r matches Err(ToolError::ExecutionFailed(m)) && m@ == "rg error: "@
                + stderr@),
            code != Some(2i32) ==> (r matches Ok(t) && t@ == stdout@),
    {
        match code {
            Some(2) => Err(ToolError::ExecutionFailed(String::from_str("rg error: ").concat(stderr))),
            _ => Ok(String::from_str(stdout)),
        }
    }
}

impl SearchTool {
    /// The tool as advertised to the model, with `parameters` as the JSON
    /// Schema of its arguments.
    pub fn definition(&self, parameters: serde_json::Value) -> (r: ToolDefinition)
        ensures
            r.kind@ == "function"@,
            r.function.name@ == self.spec_name(),
            r.function.description@ == "Search file contents in the workspace with ripgrep."@,
            r.function.parameters == parameters,
    {
        ToolDefinition::function(self.name(), "Search file contents in the workspace with ripgrep.", parameters)
    }
}

impl ToolRuntime for SearchTool {
    open spec fn spec_name(&self) -> Seq<char> {
        "search_files"@
    }

    fn name(&self) -> (r: &str) {
        "search_files"
    }
}

} // verus!
