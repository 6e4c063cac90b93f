//! Running many tool calls at once: what each call reports.
use std::sync::Arc;

use vstd::prelude::*;

use crate::entities::tool::{tool_error_text, ToolCall, ToolError, ToolResult};
use crate::ports::tool_runtime::ToolRuntime;
use crate::tools::registry::ToolRegistry;

verus! {

/// Dispatches tool calls through a registry, each under a time limit.
pub struct ToolExecutor<T: ToolRuntime + ?Sized> {
    pub registry: Arc<ToolRegistry<T>>,
}

impl<T: ToolRuntime + ?Sized> ToolExecutor<T> {
    pub fn new(registry: Arc<ToolRegistry<T>>) -> (r: Self)
        ensures
            r.registry == registry,
    {
        ToolExecutor { registry }
    }
}

/// What one dispatched call reports: the tool's result, the error it failed
/// with, or `timeout` when it ran out of time (`None`); errors are addressed
/// to the call.
pub fn dispatch_outcome(call: &ToolCall, outcome: Option<Result<ToolResult, ToolError>>) -> (r: ToolResult)
    ensures
        match outcome {
            Some(Ok(res)) => r == res,
            Some(Err(e)) => r.tool_call_id@ == call.id@ && r.content@ == tool_error_text(e) && r.is_error,
            None => r.tool_call_id@ == call.id@ && r.content@ == "timeout"@ && r.is_error,
        },
{
    match outcome {
        Some(Ok(res)) => res,
        Some(Err(e)) => ToolResult::err(call.id.clone(), e),
        None => ToolResult::err(call.id.clone(), ToolError::Timeout),
    }
}

} // verus!
