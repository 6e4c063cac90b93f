use vstd::prelude::*;

verus! {

/// The texts of a list of string slices.
pub open spec fn strs_view(tools: Seq<&str>) -> Seq<Seq<char>> {
    tools.map_values(|t: &str| t@)
}

/// Per-model plugin: content cleaning, tool-call instruction style, and token floor.
///
/// Implement this trait to add support for a new LLM and register the adapter
/// in a `ModelAdapterRegistry` ahead of the catch-all default.
pub trait ModelAdapter: Send + Sync {
    /// Which model identifiers this adapter handles.
    /// Left unspecified for implementations that do not define it.
    closed spec fn spec_matches(&self, model: Seq<char>) -> bool {
        vstd::pervasive::arbitrary()
    }

    /// The instructions this adapter produces for a workspace root and tool names.
    /// Left unspecified for implementations that do not define it.
    closed spec fn spec_tool_instructions(&self, workspace_root: Seq<char>, tools: Seq<Seq<char>>) -> Seq<
        char,
    > {
        vstd::pervasive::arbitrary()
    }

    /// What `clean_content` makes of a text.
    /// Left unspecified for implementations that do not define it.
    closed spec fn spec_clean_content(&self, text: Seq<char>) -> Seq<char> {
        vstd::pervasive::arbitrary()
    }

    /// True if this adapter should handle the given model identifier string.
    fn matches(&self, model: &str) -> (r: bool)
        ensures
            r == self.spec_matches(model@),
    ;

    /// Strip model-specific injection tokens from raw message content;
    /// an adapter for a model without such tokens returns the text as it is.
    fn clean_content(&self, text: String) -> (r: String)
        ensures
            r@ == self.spec_clean_content(text@),
    ;

    /// Tool-call instructions appended to the system prompt for this model.
    fn tool_instructions(&self, workspace_root: &str, tools: &[&str]) -> (r: String)
        ensures
            r@ == self.spec_tool_instructions(workspace_root@, strs_view(tools@)),
    ;

    /// Minimum `max_tokens` value for tool-loop requests.
    fn tool_max_tokens(&self) -> (r: u32)
        default_ensures
            r == 4096,
    {
        4096
    }
}

} // verus!
