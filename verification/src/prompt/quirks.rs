use std::sync::Arc;

use vstd::prelude::*;

use crate::entities::message::{part_text, ContentPart, Message};
use crate::prompt::adapter_registry::ModelAdapterRegistry;

verus! {

/// `b` is `a` with (possibly) different part texts: same role, tool fields and
/// number of parts.
pub open spec fn same_shape(a: Message, b: Message) -> bool {
    &&& a.role == b.role
    &&& a.tool_calls == b.tool_calls
    &&& a.tool_call_id == b.tool_call_id
    &&& a.content.len() == b.content.len()
}

/// `b` is `a` with each part text cleaned by the adapter that `registry`
/// selects for `model`.
pub open spec fn cleaned_by(registry: ModelAdapterRegistry, model: Seq<char>, a: Message, b: Message) -> bool {
    &&& same_shape(a, b)
    &&& forall|j: int|
        0 <= j < a.content.len() ==> part_text(#[trigger] b.content[j]) == registry.clean_for(
            model,
            part_text(a.content[j]),
        )
}

/// Strips model-specific injection tokens by delegating to the registered `ModelAdapter`.
///
/// Any model quirk is handled by its adapter — add a new adapter, get cleaning for free.
pub struct ModelQuirksTransformer {
    pub registry: Arc<ModelAdapterRegistry>,
}

impl ModelQuirksTransformer {
    pub fn new(registry: Arc<ModelAdapterRegistry>) -> (r: Self)
        ensures
            r.registry == registry,
    {
        ModelQuirksTransformer { registry }
    }

    /// Every text part of every message is passed through the selected
    /// adapter's `clean_content`; everything else is kept.
    pub fn apply(&self, model: &str, messages: Vec<Message>) -> (r: Vec<Message>)
        requires
            self.registry.handles(model@),
        ensures
            r.len() == messages.len(),
            forall|i: int| 0 <= i < r.len() ==> cleaned_by(*self.registry, model@, messages[i], #[trigger] r[i]),
    {
        let adapter = self.registry.for_model(model);
        let mut out: Vec<Message> = Vec::new();
        let ghost input = messages@;
        for msg in it: messages
            invariant
                input == it.seq(),
                out.len() == it.index(),
                forall|i: int| 0 <= i < out.len() ==> cleaned_by(*self.registry, model@, input[i], #[trigger] out[i]),
                forall|t: Seq<char>| #[trigger] adapter.spec_clean_content(t) == self.registry.clean_for(model@, t),
        {
            let mut content: Vec<ContentPart> = Vec::new();
            let ghost parts = msg.content@;
            for part in pit: msg.content
                invariant
                    parts == pit.seq(),
                    content.len() == pit.index(),
                    forall|t: Seq<char>| #[trigger] adapter.spec_clean_content(t) == self.registry.clean_for(model@, t),
                    forall|j: int|
                        0 <= j < content.len() ==> part_text(#[trigger] content[j]) == self.registry.clean_for(
                            model@,
                            part_text(parts[j]),
                        ),
            {
                let ContentPart::Text(text) = part;
                content.push(ContentPart::Text(adapter.clean_content(text)));
            }
            out.push(Message {
                role: msg.role,
                content,
                tool_calls: msg.tool_calls,
                tool_call_id: msg.tool_call_id,
            });
        }
        out
    }
}

} // verus!
