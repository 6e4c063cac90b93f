//! Message transformations applied before every backend call.
pub mod adapter_registry;
pub mod quirks;
pub mod system_prompt;

pub use adapter_registry::ModelAdapterRegistry;
pub use quirks::ModelQuirksTransformer;
pub use system_prompt::SystemPromptBuilder;

use vstd::prelude::*;

use crate::entities::message::Message;
use quirks::cleaned_by;
use system_prompt::with_instructions;

verus! {

/// Ordered pipeline of message transformations applied before every backend call.
pub struct PromptPipeline {
    pub system_prompt: SystemPromptBuilder,
    pub quirks: ModelQuirksTransformer,
}

impl PromptPipeline {
    pub fn new(system_prompt: SystemPromptBuilder, quirks: ModelQuirksTransformer) -> (r: Self)
        ensures
            r.system_prompt == system_prompt,
            r.quirks == quirks,
    {
        PromptPipeline { system_prompt, quirks }
    }

    /// Both stages have an adapter for `model`.
    pub open spec fn handles(&self, model: Seq<char>) -> bool {
        self.system_prompt.registry.handles(model) && self.quirks.registry.handles(model)
    }

    /// System-prompt injection, then per-model content cleaning.
    pub fn transform(&self, model: &str, messages: Vec<Message>) -> (r: Vec<Message>)
        requires
            self.handles(model@),
        ensures
            exists|mid: Seq<Message>|
                {
                    &&& with_instructions(
                        messages@,
                        self.system_prompt.instructions(model@),
                        mid,
                    )
                    &&& r.len() == mid.len()
                    &&& forall|i: int| 0 <= i < r.len() ==> cleaned_by(*self.quirks.registry, model@, mid[i], #[trigger] r[i])
                },
    {
        let messages = self.system_prompt.apply(model, messages);
        let ghost mid = messages@;
        let r = self.quirks.apply(model, messages);
        assert(forall|i: int| 0 <= i < r.len() ==> cleaned_by(*self.quirks.registry, model@, mid[i], #[trigger] r[i]));
        r
    }
}

} // verus!
