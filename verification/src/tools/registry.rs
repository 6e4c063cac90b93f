use std::sync::Arc;

use vstd::prelude::*;

use crate::entities::tool::{ToolCall, ToolError};
use crate::ports::tool_runtime::ToolRuntime;
use crate::sharing::share;

verus! {

/// `i` is the first position of `entries` whose tool is named `name`.
pub open spec fn is_first_named<T: ToolRuntime + ?Sized>(entries: Seq<Arc<T>>, name: Seq<char>, i: int) -> bool {
    &&& 0 <= i < entries.len()
    &&& entries[i].spec_name() == name
    &&& forall|j: int| 0 <= j < i ==> entries[j].spec_name() != name
}

/// The first position of a tool named `name`, if any.
pub open spec fn position_of<T: ToolRuntime + ?Sized>(entries: Seq<Arc<T>>, name: Seq<char>) -> Option<int> {
    if exists|i: int| is_first_named(entries, name, i) {
        Some(choose|i: int| is_first_named(entries, name, i))
    } else {
        None
    }
}

/// The tool registered under `name`, if any.
pub open spec fn lookup_in<T: ToolRuntime + ?Sized>(entries: Seq<Arc<T>>, name: Seq<char>) -> Option<Arc<T>> {
    match position_of(entries, name) {
        Some(i) => Some(entries[i]),
        None => None,
    }
}

/// The entries after registering `tool`: it replaces the tool of the same
/// name, or joins at the end.
pub open spec fn registered<T: ToolRuntime + ?Sized>(entries: Seq<Arc<T>>, tool: Arc<T>) -> Seq<Arc<T>> {
    match position_of(entries, tool.spec_name()) {
        Some(i) => entries.update(i, tool),
        None => entries.push(tool),
    }
}

proof fn lemma_first_unique<T: ToolRuntime + ?Sized>(entries: Seq<Arc<T>>, name: Seq<char>, i: int)
    requires
        is_first_named(entries, name, i),
    ensures
        position_of(entries, name) == Some(i),
{
    let k = choose|k: int| is_first_named(entries, name, k);
    assert(is_first_named(entries, name, k));
    if k < i {
        assert(entries[k].spec_name() != name);
    } else if i < k {
        assert(entries[i].spec_name() != name);
    }
}

proof fn lemma_position_none<T: ToolRuntime + ?Sized>(entries: Seq<Arc<T>>, name: Seq<char>)
    requires
        forall|j: int| 0 <= j < entries.len() ==> entries[j].spec_name() != name,
    ensures
        position_of(entries, name) is None,
{
    if exists|i: int| is_first_named(entries, name, i) {
        let k = choose|k: int| is_first_named(entries, name, k);
        assert(entries[k].spec_name() == name);
    }
}

proof fn lemma_position_some<T: ToolRuntime + ?Sized>(entries: Seq<Arc<T>>, name: Seq<char>)
    requires
        position_of(entries, name) is Some,
    ensures
        is_first_named(entries, name, position_of(entries, name)->0),
{
}

proof fn lemma_position_exists<T: ToolRuntime + ?Sized>(entries: Seq<Arc<T>>, name: Seq<char>, i: int)
    requires
        0 <= i < entries.len(),
        entries[i].spec_name() == name,
    ensures
        position_of(entries, name) matches Some(k) && k <= i,
    decreases i,
{
    if forall|j: int| 0 <= j < i ==> entries[j].spec_name() != name {
        lemma_first_unique(entries, name, i);
    } else {
        let j2 = choose|j: int| 0 <= j < i && entries[j].spec_name() == name;
        lemma_position_exists(entries, name, j2);
    }
}

/// Registering a tool makes it the one found under its name, and leaves
/// every other name's tool as it was.
pub proof fn lemma_register_then_lookup<T: ToolRuntime + ?Sized>(entries: Seq<Arc<T>>, tool: Arc<T>, other: Seq<char>)
    requires
        other != tool.spec_name(),
    ensures
        lookup_in(registered(entries, tool), tool.spec_name()) == Some(tool),
        lookup_in(registered(entries, tool), other) == lookup_in(entries, other),
{
    let n = tool.spec_name();
    let e2 = registered(entries, tool);
    match position_of(entries, n) {
        Some(i) => {
            lemma_position_some(entries, n);
            assert(is_first_named(e2, n, i));
            lemma_first_unique(e2, n, i);
            match position_of(entries, other) {
                Some(k) => {
                    lemma_position_some(entries, other);
                    assert(k != i);
                    assert(is_first_named(e2, other, k));
                    lemma_first_unique(e2, other, k);
                },
                None => {
                    assert forall|j: int| 0 <= j < e2.len() implies e2[j].spec_name() != other by {
                        if e2[j].spec_name() == other {
                            lemma_position_exists(entries, other, j);
                        }
                    }
                    lemma_position_none(e2, other);
                },
            }
        },
        None => {
            assert forall|j: int| 0 <= j < entries.len() implies entries[j].spec_name() != n by {
                if entries[j].spec_name() == n {
                    lemma_position_exists(entries, n, j);
                }
            }
            assert(is_first_named(e2, n, entries.len() as int));
            lemma_first_unique(e2, n, entries.len() as int);
            match position_of(entries, other) {
                Some(k) => {
                    lemma_position_some(entries, other);
                    assert(is_first_named(e2, other, k));
                    lemma_first_unique(e2, other, k);
                },
                None => {
                    assert forall|j: int| 0 <= j < e2.len() implies e2[j].spec_name() != other by {
                        if j < entries.len() && e2[j].spec_name() == other {
                            lemma_position_exists(entries, other, j);
                        }
                    }
                    lemma_position_none(e2, other);
                },
            }
        },
    }
}

/// The tools known by name; a later registration under a name replaces the
/// earlier one.
pub struct ToolRegistry<T: ToolRuntime + ?Sized> {
    tools: Vec<Arc<T>>,
}

impl<T: ToolRuntime + ?Sized> ToolRegistry<T> {
    /// The registered tools, in registration order.
    pub closed spec fn entries(&self) -> Seq<Arc<T>> {
        self.tools@
    }

    /// The tool registered under `name`, if any.
    pub open spec fn lookup(&self, name: Seq<char>) -> Option<Arc<T>> {
        lookup_in(self.entries(), name)
    }

    pub fn new() -> (r: Self)
        ensures
            r.entries() == Seq::<Arc<T>>::empty(),
    {
        ToolRegistry { tools: Vec::new() }
    }

    fn find(&self, name: &str) -> (r: Option<usize>)
        ensures
            match r {
                Some(i) => position_of(self.entries(), name@) == Some(i as int),
                None => position_of(self.entries(), name@) is None,
            },
    {
        let mut i: usize = 0;
        while i < self.tools.len()
            invariant
                i <= self.tools.len(),
                forall|j: int| 0 <= j < i ==> self.tools@[j].spec_name() != name@,
            decreases self.tools.len() - i,
        {
            let n = self.tools[i].name();
            if crate::text::str_eq(n, name) {
                proof {
                    lemma_first_unique(self.tools@, name@, i as int);
                }
                return Some(i);
            }
            i = i + 1;
        }
        proof {
            lemma_position_none(self.tools@, name@);
        }
        None
    }

    /// Registers `tool` under its name, replacing any tool of the same name.
    pub fn register(&mut self, tool: Arc<T>)
        ensures
            final(self).entries() == registered(old(self).entries(), tool),
    {
        let name = tool.name();
        match self.find(name) {
            Some(i) => {
                self.tools.set(i, tool);
            },
            None => {
                self.tools.push(tool);
            },
        }
    }

    /// The tool registered under `name`, if any.
    pub fn get(&self, name: &str) -> (r: Option<Arc<T>>)
        ensures
            r == self.lookup(name@),
    {
        match self.find(name) {
            Some(i) => Some(share(&self.tools[i])),
            None => None,
        }
    }

    /// The tool that runs `call`, or `NotFound` with the call's function name.
    pub fn resolve(&self, call: &ToolCall) -> (r: Result<Arc<T>, ToolError>)
        ensures
            match self.lookup(call.function.name@) {
                Some(t) => r == Ok::<Arc<T>, ToolError>(t),
                None => r matches Err(ToolError::NotFound(n)) && n@ == call.function.name@,
            },
    {
        match self.get(call.function.name.as_str()) {
            Some(t) => Ok(t),
            None => Err(ToolError::NotFound(call.function.name.clone())),
        }
    }
}

} // verus!
