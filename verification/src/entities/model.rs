use vstd::prelude::*;

verus! {

/// Identifier of a model served by the backend, e.g. `qwen2.5-coder:14b`.
#[derive(Debug, Clone, PartialEq, Eq, Hash)]
pub struct ModelId(pub String);

impl ModelId {
    pub open spec fn view_str(&self) -> Seq<char> {
        self.0@
    }

    pub fn new(s: &str) -> (r: Self)
        ensures
            r.0@ == s@,
    {
        ModelId(String::from_str(s))
    }

    pub fn as_str(&self) -> (r: &str)
        ensures
            r@ == self.0@,
    {
        self.0.as_str()
    }

    /// The identifier as text (what `Display` would print).
    pub fn to_string(&self) -> (r: String)
        ensures
            r@ == self.0@,
    {
        self.0.clone()
    }

    /// A copy with the same text.
    pub fn duplicate(&self) -> (r: Self)
        ensures
            r == *self,
    {
        ModelId(self.0.clone())
    }
}

/// A model as advertised by the backend.
#[derive(Debug, Clone)]
pub struct ModelDescriptor {
    pub id: ModelId,
    pub owned_by: String,
    pub description: Option<String>,
    pub max_tokens: Option<u32>,
}

} // verus!
