//! The `read_file` tool.
use vstd::prelude::*;

use crate::entities::tool::{ToolCall, ToolDefinition, ToolError};
use crate::ports::tool_runtime::ToolRuntime;
use crate::tools::args::{arg_str, missing_field_text, required_arg};

verus! {

/// Reads a file inside the workspace.
pub struct ReadFileTool {
    pub workspace_root: String,
}

impl ReadFileTool {
    pub fn new(workspace_root: &str) -> (r: Self)
        ensures
            r.workspace_root@ == workspace_root@,
    {
        ReadFileTool { workspace_root: String::from_str(workspace_root) }
    }

    /// The path a call asks to read.
    pub fn path_argument(&self, call: &ToolCall) -> (r: Result<String, ToolError>)
        ensures
            match arg_str(call.function.arguments@, "path"@) {
                None => r matches Err(ToolError::InvalidArguments(_)),
                Some(None) => r matches Err(ToolError::InvalidArguments(m)) && m@ == missing_field_text(
                    "path"@,
                ),
                Some(Some(p)) => r matches Ok(t) && t@ == p,
            },
    {
        required_arg(call, "path")
    }
}

impl ReadFileTool {
    /// The tool as advertised to the model, with `parameters` as the JSON
    /// Schema of its arguments.
    pub fn definition(&self, parameters: serde_json::Value) -> (r: ToolDefinition)
        ensures
            r.kind@ == "function"@,
            r.function.name@ == self.spec_name(),
            r.function.description@ == "Read the contents of a file inside the workspace. Use relative paths."@,
            r.function.parameters == parameters,
    {
        ToolDefinition::function(self.name(), "Read the contents of a file inside the workspace. Use relative paths.", parameters)
    }
}

impl ToolRuntime for ReadFileTool {
    open spec fn spec_name(&self) -> Seq<char> {
        "read_file"@
    }

    fn name(&self) -> (r: &str) {
        "read_file"
    }
}

} // verus!
