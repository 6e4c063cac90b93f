use vstd::prelude::*;

verus! {

/// A tool the agent loop can run, known by its name.
///
/// The name is what a tool call's `function.name` is matched against; running
/// the tool is asynchronous work done outside the library.
pub trait ToolRuntime: Send + Sync {
    /// The name this runtime answers to.
    /// Left unspecified for implementations that do not define it.
    closed spec fn spec_name(&self) -> Seq<char> {
        vstd::pervasive::arbitrary()
    }

    /// The tool name this runtime handles (e.g. `"read_file"`, `"search"`).
    fn name(&self) -> (r: &str)
        ensures
            r@ == self.spec_name(),
    ;
}

} // verus!
