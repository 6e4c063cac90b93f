use std::sync::Arc;

use vstd::prelude::*;

use crate::ports::model_adapter::ModelAdapter;

verus! {

/// Index of the first adapter in `adapters[from..]` that matches `model`.
pub open spec fn first_match_from(adapters: Seq<Arc<dyn ModelAdapter>>, model: Seq<char>, from: int) -> Option<int>
    decreases adapters.len() - from,
{
    if from < 0 || from >= adapters.len() {
        None
    } else if adapters[from].spec_matches(model) {
        Some(from)
    } else {
        first_match_from(adapters, model, from + 1)
    }
}

/// Index of the first adapter that matches `model`.
pub open spec fn first_match(adapters: Seq<Arc<dyn ModelAdapter>>, model: Seq<char>) -> Option<int> {
    first_match_from(adapters, model, 0)
}

pub proof fn lemma_first_match_from(adapters: Seq<Arc<dyn ModelAdapter>>, model: Seq<char>, from: int)
    requires
        0 <= from,
    ensures
        first_match_from(adapters, model, from) matches Some(i) ==> from <= i < adapters.len()
            && adapters[i].spec_matches(model) && forall|j: int|
            from <= j < i ==> !#[trigger] adapters[j].spec_matches(model),
        first_match_from(adapters, model, from) is None ==> forall|j: int|
            from <= j < adapters.len() ==> !#[trigger] adapters[j].spec_matches(model),
    decreases adapters.len() - from,
{
    if from < adapters.len() && !adapters[from].spec_matches(model) {
        lemma_first_match_from(adapters, model, from + 1);
    }
}

/// Selects the first registered adapter whose `matches()` returns true.
///
/// Registration order matters — more specific adapters (Qwen, DeepSeek) must
/// be added before `DefaultAdapter`, which matches every model.
pub struct ModelAdapterRegistry {
    pub adapters: Vec<Arc<dyn ModelAdapter>>,
}

impl ModelAdapterRegistry {
    /// Some registered adapter matches `model`.
    pub open spec fn handles(&self, model: Seq<char>) -> bool {
        first_match(self.adapters@, model) is Some
    }

    /// The tool instructions of the adapter selected for `model`.
    pub open spec fn instructions_for(&self, model: Seq<char>, workspace_root: Seq<char>, tools: Seq<Seq<char>>) -> Seq<char> {
        self.adapters@[first_match(self.adapters@, model)->0].spec_tool_instructions(
            workspace_root,
            tools,
        )
    }

    /// What the adapter selected for `model` makes of a text.
    pub open spec fn clean_for(&self, model: Seq<char>, text: Seq<char>) -> Seq<char> {
        self.adapters@[first_match(self.adapters@, model)->0].spec_clean_content(text)
    }

    pub fn new(adapters: Vec<Arc<dyn ModelAdapter>>) -> (r: Self)
        ensures
            r.adapters == adapters,
    {
        ModelAdapterRegistry { adapters }
    }

    /// Position of the first adapter that matches `model`.
    pub fn position_for(&self, model: &str) -> (r: Option<usize>)
        ensures
            match r {
                Some(i) => first_match(self.adapters@, model@) == Some(i as int),
                None => first_match(self.adapters@, model@) is None,
            },
    {
        let mut i: usize = 0;
        while i < self.adapters.len()
            invariant
                i <= self.adapters.len(),
                first_match(self.adapters@, model@) == first_match_from(self.adapters@, model@, i as int),
            decreases self.adapters.len() - i,
        {
            if self.adapters[i].matches(model) {
                return Some(i);
            }
            i = i + 1;
        }
        None
    }

    /// Returns the first adapter that matches `model`.
    ///
    /// A registry ending with `DefaultAdapter` handles every model.
    pub fn for_model(&self, model: &str) -> (r: &Arc<dyn ModelAdapter>)
        requires
            self.handles(model@),
        ensures
            *r == self.adapters@[first_match(self.adapters@, model@)->0],
            forall|m: Seq<char>|
                #[trigger] r.spec_matches(m) == self.adapters@[first_match(
                    self.adapters@,
                    model@,
                )->0].spec_matches(m),
            forall|root: Seq<char>, tools: Seq<Seq<char>>|
                #[trigger] r.spec_tool_instructions(root, tools) == self.instructions_for(
                    model@,
                    root,
                    tools,
                ),
            forall|t: Seq<char>| #[trigger] r.spec_clean_content(t) == self.clean_for(model@, t),
    {
        let i = self.position_for(model);
        proof {
            lemma_first_match_from(self.adapters@, model@, 0);
        }
        let idx = i.unwrap();
        &self.adapters[idx]
    }
}

} // verus!
