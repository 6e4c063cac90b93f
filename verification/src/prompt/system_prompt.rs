use std::sync::Arc;

use vstd::prelude::*;

use crate::entities::message::{is_text_message, part_text, ContentPart, Message, Role};
use crate::ports::model_adapter::strs_view;
use crate::prompt::adapter_registry::ModelAdapterRegistry;

verus! {

/// The texts of a list of strings.
pub open spec fn strings_view(names: Seq<String>) -> Seq<Seq<char>> {
    names.map_values(|s: String| s@)
}

/// `r` is `messages` with tool instructions `ins` placed in the system turn:
/// appended (after a newline) to the first part of a leading system message,
/// or as a new leading system message when there is none.
pub open spec fn with_instructions(messages: Seq<Message>, ins: Seq<char>, r: Seq<Message>) -> bool {
    if messages.len() > 0 && messages[0].role == Role::System {
        &&& r.len() == messages.len()
        &&& r.skip(1) == messages.skip(1)
        &&& r[0].role == Role::System
        &&& r[0].tool_calls == messages[0].tool_calls
        &&& r[0].tool_call_id == messages[0].tool_call_id
        &&& r[0].content.len() == messages[0].content.len()
        &&& r[0].content@.skip(1) == messages[0].content@.skip(1)
        &&& messages[0].content.len() > 0 ==> part_text(r[0].content[0]) == part_text(
            messages[0].content[0],
        ) + "\n"@ + ins
    } else {
        &&& r.len() == messages.len() + 1
        &&& is_text_message(r[0], Role::System, ins)
        &&& r.skip(1) == messages
    }
}

/// Ensures a system message is present and contains model-appropriate tool instructions.
///
/// If the conversation has no system message, one is prepended.
/// If one already exists (e.g. from the editor), tool instructions are appended to it.
pub struct SystemPromptBuilder {
    pub registry: Arc<ModelAdapterRegistry>,
    pub workspace_root: String,
    pub tool_names: Vec<String>,
}

impl SystemPromptBuilder {
    pub fn new(registry: Arc<ModelAdapterRegistry>, workspace_root: &str, tool_names: Vec<String>) -> (r: Self)
        ensures
            r.registry == registry,
            r.workspace_root@ == workspace_root@,
            r.tool_names == tool_names,
    {
        SystemPromptBuilder { registry, workspace_root: String::from_str(workspace_root), tool_names }
    }

    /// The instructions this builder injects for `model`.
    pub open spec fn instructions(&self, model: Seq<char>) -> Seq<char> {
        self.registry.instructions_for(model, self.workspace_root@, strings_view(self.tool_names@))
    }

    pub fn apply(&self, model: &str, messages: Vec<Message>) -> (r: Vec<Message>)
        requires
            self.registry.handles(model@),
        ensures
            with_instructions(messages@, self.instructions(model@), r@),
    {
        let mut tools: Vec<&str> = Vec::new();
        let mut i: usize = 0;
        while i < self.tool_names.len()
            invariant
                i <= self.tool_names.len(),
                strs_view(tools@) == strings_view(self.tool_names@).take(i as int),
            decreases self.tool_names.len() - i,
        {
            let ghost prev = tools@;
            tools.push(self.tool_names[i].as_str());
            proof {
                assert(strs_view(tools@) =~= strs_view(prev).push(self.tool_names@[i as int]@));
                assert(strings_view(self.tool_names@).take(i + 1) =~= strings_view(
                    self.tool_names@,
                ).take(i as int).push(self.tool_names@[i as int]@));
            }
            i = i + 1;
        }
        assert(strings_view(self.tool_names@).take(self.tool_names.len() as int) =~= strings_view(
            self.tool_names@,
        ));
        let adapter = self.registry.for_model(model);
        let instructions = adapter.tool_instructions(self.workspace_root.as_str(), tools.as_slice());
        let ghost ins = self.instructions(model@);
        assert(instructions@ == ins);
        let mut messages = messages;
        let ghost orig = messages@;
        if messages.len() > 0 && messages[0].role == Role::System {
            if messages[0].content.len() > 0 {
                let mut first = messages.remove(0);
                let ghost first0 = first;
                let ContentPart::Text(text) = first.content.remove(0);
                let text = text.concat("\n").concat(instructions.as_str());
                first.content.insert(0, ContentPart::Text(text));
                messages.insert(0, first);
                proof {
                    assert(messages@.skip(1) =~= orig.skip(1));
                    assert(first.content@.skip(1) =~= first0.content@.skip(1));
                    reveal_strlit("\n");
                }
            }
            return messages;
        }
        let sys = Message::system(instructions.as_str());
        messages.insert(0, sys);
        assert(messages@.skip(1) =~= orig);
        messages
    }
}

} // verus!
