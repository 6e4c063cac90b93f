//! The `write_file` tool.
use vstd::prelude::*;

use crate::entities::tool::{ToolCall, ToolDefinition, ToolError};
use crate::json::{json_object_members, str_field};
use crate::ports::tool_runtime::ToolRuntime;
use crate::text::decimal_string;
use crate::tools::args::{call_arguments, missing_field_text, required_str};

verus! {

/// Writes (creating or replacing) a file inside the workspace.
pub struct WriteFileTool {
    pub workspace_root: String,
}

/// The arguments of a write call, checked in order: `path`, `content`.
pub open spec fn write_args_outcome(args: Seq<char>, r: Result<(String, String), ToolError>) -> bool {
    match json_object_members(args) {
        None => r matches Err(ToolError::InvalidArguments(_)),
        Some(ms) => match (str_field(ms, "path"@), str_field(ms, "content"@)) {
            (None, _) => r matches Err(ToolError::InvalidArguments(m)) && m@ == missing_field_text("path"@),
            (Some(_), None) => r matches Err(ToolError::InvalidArguments(m)) && m@ == missing_field_text(
                "content"@,
            ),
            (Some(p), Some(c)) => r matches Ok(t) && t.0@ == p && t.1@ == c,
        },
    }
}

impl WriteFileTool {
    pub fn new(workspace_root: &str) -> (r: Self)
        ensures
            r.workspace_root@ == workspace_root@,
    {
        WriteFileTool { workspace_root: String::from_str(workspace_root) }
    }

    /// The path and content a call asks to write.
    pub fn arguments(&self, call: &ToolCall) -> (r: Result<(String, String), ToolError>)
        ensures
            write_args_outcome(call.function.arguments@, r),
    {
        let args = call_arguments(call)?;
        let path = required_str(&args, "path")?;
        let content = required_str(&args, "content")?;
        Ok((path, content))
    }

    /// The report of a successful write: the size of the content in UTF-8
    /// bytes and the path as given.
    pub fn written_message(content: &str, path: &str) -> (r: String)
        ensures
            r@ == "wrote "@ + crate::text::decimal(content.len() as nat) + " bytes to "@ + path@,
    {
        let n = content.len();
        String::from_str("wrote ").concat(decimal_string(n as u128).as_str()).concat(" bytes to ").concat(path)
    }
}

impl WriteFileTool {
    /// The tool as advertised to the model, with `parameters` as the JSON
    /// Schema of its arguments.
    pub fn definition(&self, parameters: serde_json::Value) -> (r: ToolDefinition)
        ensures
            r.kind@ == "function"@,
            r.function.name@ == self.spec_name(),
            r.function.description@ == "Create or overwrite a file inside the workspace with the given content."@,
            r.function.parameters == parameters,
    {
        ToolDefinition::function(self.name(), "Create or overwrite a file inside the workspace with the given content.", parameters)
    }
}

impl ToolRuntime for WriteFileTool {
    open spec fn spec_name(&self) -> Seq<char> {
        "write_file"@
    }

    fn name(&self) -> (r: &str) {
        "write_file"
    }
}

} // verus!
