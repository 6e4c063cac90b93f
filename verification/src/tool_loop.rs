//! Decisions of the agent tool loop: when to stop, which tool runs a call,
//! and how tool results are fed back to the model.
use std::sync::Arc;

use vstd::multiset::Multiset;
use vstd::prelude::*;

use crate::entities::conversation::{requests_tools, ConversationRequest, ConversationResponse};
use crate::entities::message::{is_tool_message, is_tool_request_message, Message};
use crate::entities::tool::{duplicate_calls, same_calls, tool_error_text, ToolCall, ToolError, ToolResult};
use crate::ports::llm_backend::{backend_error_text, BackendError};
use crate::ports::tool_runtime::ToolRuntime;

verus! {

/// Hard limit on model → tools → model round trips per request. On the final
/// pass a tool-call response is returned as it is.
pub const MAX_PASSES: usize = 5;

/// Why the tool loop gave up.
#[derive(Debug)]
pub enum ToolLoopError {
    Backend(BackendError),
}

impl ToolLoopError {
    /// The human-readable message of this error.
    pub fn to_string(&self) -> (r: String)
        ensures
            match self {
                ToolLoopError::Backend(e) => r@ == "backend: "@ + backend_error_text(*e),
            },
    {
        match self {
            ToolLoopError::Backend(e) => String::from_str("backend: ").concat(e.to_string().as_str()),
        }
    }
}

impl From<BackendError> for ToolLoopError {
    fn from(e: BackendError) -> (r: Self) {
        ToolLoopError::Backend(e)
    }
}

impl vstd::std_specs::convert::FromSpecImpl<BackendError> for ToolLoopError {
    open spec fn obeys_from_spec() -> bool {
        true
    }

    open spec fn from_spec(e: BackendError) -> Self {
        ToolLoopError::Backend(e)
    }
}

// ---------------------------------------------------------------------------
// Which tool runs a call
// ---------------------------------------------------------------------------

/// The first tool in `tools` named `name`, searching from `from`.
pub open spec fn first_tool_from<T: ToolRuntime + ?Sized>(tools: Seq<Arc<T>>, name: Seq<char>, from: int) -> Option<int>
    decreases tools.len() - from,
{
    if from < 0 || from >= tools.len() {
        None
    } else if tools[from].spec_name() == name {
        Some(from)
    } else {
        first_tool_from(tools, name, from + 1)
    }
}

/// The position of the first tool in `tools` named `name` (`iter().find`).
pub fn find_tool<T: ToolRuntime + ?Sized>(tools: &Vec<Arc<T>>, name: &str) -> (r: Option<usize>)
    ensures
        match r {
            Some(i) => first_tool_from(tools@, name@, 0) == Some(i as int),
            None => first_tool_from(tools@, name@, 0) is None,
        },
{
    let mut i: usize = 0;
    while i < tools.len()
        invariant
            i <= tools.len(),
            first_tool_from(tools@, name@, 0) == first_tool_from(tools@, name@, i as int),
        decreases tools.len() - i,
    {
        if crate::text::str_eq(tools[i].name(), name) {
            return Some(i);
        }
        i = i + 1;
    }
    None
}

/// The result reported for a call that names no known tool.
pub fn unknown_tool_result(call: &ToolCall) -> (r: ToolResult)
    ensures
        r.tool_call_id@ == call.id@,
        r.content@ == "not found: "@ + call.function.name@,
        r.is_error,
{
    let name = call.function.name.clone();
    let e = ToolError::NotFound(name);
    proof {
        assert(tool_error_text(e) == "not found: "@ + call.function.name@);
    }
    ToolResult::err(call.id.clone(), e)
}

/// The result reported for a call whose tool ran: its own result, or the
/// error it failed with, addressed to the call.
pub fn settle_tool_outcome(call: &ToolCall, outcome: Result<ToolResult, ToolError>) -> (r: ToolResult)
    ensures
        match outcome {
            Ok(res) => r == res,
            Err(e) => r.tool_call_id@ == call.id@ && r.content@ == tool_error_text(e) && r.is_error,
        },
{
    match outcome {
        Ok(res) => res,
        Err(e) => ToolResult::err(call.id.clone(), e),
    }
}

// ---------------------------------------------------------------------------
// Ordering of results
// ---------------------------------------------------------------------------

/// Position of the first call with id `id`, searching from `i`; the number of
/// calls when none has it (such results sort after all others).
pub open spec fn call_position_from(calls: Seq<ToolCall>, id: Seq<char>, i: int) -> int
    decreases calls.len() - i,
{
    if i < 0 || i >= calls.len() {
        calls.len() as int
    } else if calls[i].id@ == id {
        i
    } else {
        call_position_from(calls, id, i + 1)
    }
}

/// The sort key of a result: the position of its call.
pub open spec fn result_key(calls: Seq<ToolCall>, r: ToolResult) -> int {
    call_position_from(calls, r.tool_call_id@, 0)
}

/// The results whose key is `p`, in their original order.
pub open spec fn results_with_key(calls: Seq<ToolCall>, results: Seq<ToolResult>, p: int) -> Seq<ToolResult>
    decreases results.len(),
{
    if results.len() == 0 {
        seq![]
    } else {
        let rest = results_with_key(calls, results.drop_last(), p);
        if result_key(calls, results.last()) == p {
            rest.push(results.last())
        } else {
            rest
        }
    }
}

/// The results with keys below `p`, grouped by ascending key, each group in
/// its original order.
pub open spec fn results_below(calls: Seq<ToolCall>, results: Seq<ToolResult>, p: int) -> Seq<ToolResult>
    decreases p,
{
    if p <= 0 {
        seq![]
    } else {
        results_below(calls, results, p - 1) + results_with_key(calls, results, p - 1)
    }
}

/// The results in the order of their calls (a stable sort by call position;
/// results for unknown ids keep their order and come last).
pub open spec fn ordered_results(calls: Seq<ToolCall>, results: Seq<ToolResult>) -> Seq<ToolResult> {
    results_below(calls, results, calls.len() + 1int)
}

fn call_position(calls: &Vec<ToolCall>, id: &String) -> (r: usize)
    ensures
        r == call_position_from(calls@, id@, 0),
{
    let mut i: usize = 0;
    while i < calls.len()
        invariant
            i <= calls.len(),
            call_position_from(calls@, id@, 0) == call_position_from(calls@, id@, i as int),
        decreases calls.len() - i,
    {
        if calls[i].id == *id {
            return i;
        }
        i = i + 1;
    }
    calls.len()
}

proof fn lemma_position_bound(calls: Seq<ToolCall>, id: Seq<char>, i: int)
    requires
        0 <= i,
    ensures
        0 <= call_position_from(calls, id, i) <= calls.len(),
    decreases calls.len() - i,
{
    if i < calls.len() && calls[i].id@ != id {
        lemma_position_bound(calls, id, i + 1);
    }
}

proof fn lemma_below_empty(calls: Seq<ToolCall>, results: Seq<ToolResult>, p: int)
    requires
        results.len() == 0,
    ensures
        results_below(calls, results, p) == Seq::<ToolResult>::empty(),
    decreases p,
{
    if p > 0 {
        lemma_below_empty(calls, results, p - 1);
        assert(results_below(calls, results, p) =~= Seq::<ToolResult>::empty());
    }
}

/// The multiset of the results below `p` grows by the last result exactly
/// when its key is below `p`.
proof fn lemma_below_multiset(calls: Seq<ToolCall>, results: Seq<ToolResult>, p: int)
    requires
        results.len() > 0,
    ensures
        results_below(calls, results, p).to_multiset() == results_below(
            calls,
            results.drop_last(),
            p,
        ).to_multiset().add(
            if 0 <= result_key(calls, results.last()) < p {
                Multiset::singleton(results.last())
            } else {
                Multiset::empty()
            },
        ),
    decreases p,
{
    broadcast use vstd::multiset::group_multiset_axioms, vstd::seq_lib::group_to_multiset_ensures, vstd::seq_lib::group_seq_properties;
    let x = results.last();
    let d = results.drop_last();
    if p <= 0 {
        assert(results_below(calls, results, p).to_multiset() =~= Multiset::empty());
        assert(results_below(calls, d, p).to_multiset() =~= Multiset::empty());
    } else {
        lemma_below_multiset(calls, results, p - 1);
        let a = results_below(calls, results, p - 1);
        let b = results_with_key(calls, results, p - 1);
        let a2 = results_below(calls, d, p - 1);
        let b2 = results_with_key(calls, d, p - 1);
        vstd::seq_lib::lemma_multiset_commutative(a, b);
        vstd::seq_lib::lemma_multiset_commutative(a2, b2);
        if result_key(calls, x) == p - 1 {
            assert(b == b2.push(x));
            vstd::seq_lib::to_multiset_build(b2, x);
        } else {
            assert(b == b2);
        }
        assert(results_below(calls, results, p).to_multiset() =~= results_below(calls, d, p).to_multiset().add(
            if 0 <= result_key(calls, x) < p {
                Multiset::singleton(x)
            } else {
                Multiset::empty()
            },
        ));
    }
}

/// Feeding results back loses none and adds none: the ordered results are
/// a rearrangement of the results.
pub proof fn lemma_ordered_results_permutation(calls: Seq<ToolCall>, results: Seq<ToolResult>)
    ensures
        ordered_results(calls, results).to_multiset() == results.to_multiset(),
    decreases results.len(),
{
    broadcast use vstd::multiset::group_multiset_axioms, vstd::seq_lib::group_to_multiset_ensures, vstd::seq_lib::group_seq_properties;
    if results.len() == 0 {
        lemma_below_empty(calls, results, calls.len() + 1int);
        assert(ordered_results(calls, results).to_multiset() =~= Multiset::empty());
        assert(results.to_multiset() =~= Multiset::empty());
    } else {
        let x = results.last();
        let d = results.drop_last();
        lemma_ordered_results_permutation(calls, d);
        lemma_below_multiset(calls, results, calls.len() + 1int);
        lemma_position_bound(calls, x.tool_call_id@, 0);
        vstd::seq_lib::to_multiset_build(d, x);
        assert(d.push(x) =~= results);
        assert(ordered_results(calls, results).to_multiset() =~= results.to_multiset());
    }
}

/// Appends a tool turn for each result whose key is `p`, in order.
fn push_group(
    messages: &mut Vec<Message>,
    results: &Vec<ToolResult>,
    keys: &Vec<usize>,
    p: usize,
    Ghost(calls): Ghost<Seq<ToolCall>>,
)
    requires
        keys.len() == results.len(),
        forall|j: int| 0 <= j < keys.len() ==> keys@[j] == result_key(calls, results@[j]),
    ensures
        ({
            let group = results_with_key(calls, results@, p as int);
            &&& final(messages)@.len() == old(messages)@.len() + group.len()
            &&& final(messages)@.take(old(messages)@.len() as int) == old(messages)@
            &&& forall|k: int|
                0 <= k < group.len() ==> is_tool_message(
                    #[trigger] final(messages)@[old(messages)@.len() + k],
                    group[k].tool_call_id@,
                    group[k].content@,
                )
        }),
{
    let ghost start = messages@;
    let ghost rs = results@;
    let mut i: usize = 0;
    while i < results.len()
        invariant
            i <= results.len(),
            results@ == rs,
            keys.len() == rs.len(),
            forall|j: int| 0 <= j < keys.len() ==> keys@[j] == result_key(calls, rs[j]),
            messages@.len() == start.len() + results_with_key(calls, rs.take(i as int), p as int).len(),
            messages@.take(start.len() as int) == start,
            forall|k: int|
                0 <= k < results_with_key(calls, rs.take(i as int), p as int).len() ==> is_tool_message(
                    #[trigger] messages@[start.len() + k],
                    results_with_key(calls, rs.take(i as int), p as int)[k].tool_call_id@,
                    results_with_key(calls, rs.take(i as int), p as int)[k].content@,
                ),
        decreases results.len() - i,
    {
        proof {
            assert(rs.take(i + 1).drop_last() =~= rs.take(i as int));
        }
        if keys[i] == p {
            let m = Message::tool_result(results[i].tool_call_id.as_str(), results[i].content.as_str());
            let ghost before = messages@;
            messages.push(m);
            proof {
                assert(messages@.take(start.len() as int) =~= before.take(start.len() as int));
            }
        }
        i = i + 1;
    }
    proof {
        assert(rs.take(rs.len() as int) =~= rs);
    }
}

/// Feeds one round of tool results back into the conversation: the
/// assistant turn that asked for `calls`, then one tool turn per result in
/// the order of the calls.
pub fn record_tool_round(request: &mut ConversationRequest, calls: Vec<ToolCall>, results: Vec<ToolResult>)
    ensures
        ({
            let base = old(request).messages@;
            let ord = ordered_results(calls@, results@);
            let msgs = final(request).messages@;
            &&& msgs.len() == base.len() + 1 + ord.len()
            &&& msgs.take(base.len() as int) == base
            &&& is_tool_request_message(msgs[base.len() as int], calls)
            &&& forall|k: int|
                0 <= k < ord.len() ==> is_tool_message(
                    #[trigger] msgs[base.len() + 1 + k],
                    ord[k].tool_call_id@,
                    ord[k].content@,
                )
        }),
        final(request).id == old(request).id,
        final(request).model == old(request).model,
        final(request).stream == old(request).stream,
        final(request).temperature_bits == old(request).temperature_bits,
        final(request).max_tokens == old(request).max_tokens,
        final(request).tool_definitions == old(request).tool_definitions,
{
    let ghost base = request.messages@;
    let n = calls.len();
    let mut keys: Vec<usize> = Vec::new();
    let mut i: usize = 0;
    while i < results.len()
        invariant
            i <= results.len(),
            keys.len() == i,
            forall|j: int| 0 <= j < i ==> keys@[j] == result_key(calls@, results@[j]),
        decreases results.len() - i,
    {
        let key = call_position(&calls, &results[i].tool_call_id);
        keys.push(key);
        i = i + 1;
    }
    let ghost calls_v = calls@;
    let ghost calls_g = calls;
    let ghost rs = results@;
    let assistant = Message::assistant_with_tool_calls(calls);
    request.messages.push(assistant);
    let mut p: usize = 0;
    loop
        invariant_except_break
            request.messages@.len() == base.len() + 1 + results_below(calls_v, rs, p as int).len(),
            forall|k: int|
                0 <= k < results_below(calls_v, rs, p as int).len() ==> is_tool_message(
                    #[trigger] request.messages@[base.len() + 1 + k],
                    results_below(calls_v, rs, p as int)[k].tool_call_id@,
                    results_below(calls_v, rs, p as int)[k].content@,
                ),
        invariant
            n == calls_v.len(),
            p <= n,
            results@ == rs,
            keys.len() == rs.len(),
            forall|j: int| 0 <= j < keys.len() ==> keys@[j] == result_key(calls_v, rs[j]),
            request.messages@.take(base.len() as int) == base,
            is_tool_request_message(request.messages@[base.len() as int], calls_g),
            request.id == old(request).id,
            request.model == old(request).model,
            request.stream == old(request).stream,
            request.temperature_bits == old(request).temperature_bits,
            request.max_tokens == old(request).max_tokens,
            request.tool_definitions == old(request).tool_definitions,
        ensures
            request.messages@.len() == base.len() + 1 + results_below(calls_v, rs, n + 1int).len(),
            forall|k: int|
                0 <= k < results_below(calls_v, rs, n + 1int).len() ==> is_tool_message(
                    #[trigger] request.messages@[base.len() + 1 + k],
                    results_below(calls_v, rs, n + 1int)[k].tool_call_id@,
                    results_below(calls_v, rs, n + 1int)[k].content@,
                ),
        decreases n - p,
    {
        let ghost before = request.messages@;
        let ghost below = results_below(calls_v, rs, p as int);
        push_group(&mut request.messages, &results, &keys, p, Ghost(calls_v));
        proof {
            let group = results_with_key(calls_v, rs, p as int);
            let after = request.messages@;
            assert(results_below(calls_v, rs, p + 1) == below + group);
            assert(after.take(base.len() as int) =~= before.take(base.len() as int)) by {
                assert(after.take(before.len() as int) == before);
                assert(after.take(base.len() as int) =~= after.take(before.len() as int).take(base.len() as int));
            }
            assert(after[base.len() as int] == after.take(before.len() as int)[base.len() as int]);
            assert forall|k: int|
                0 <= k < (below + group).len() implies is_tool_message(
                    #[trigger] after[base.len() + 1 + k],
                    (below + group)[k].tool_call_id@,
                    (below + group)[k].content@,
                ) by {
                if k < below.len() {
                    assert(after[base.len() + 1 + k] == after.take(before.len() as int)[base.len() + 1 + k]);
                } else {
                    let k2 = k - below.len();
                    assert(after[before.len() + k2] == after[base.len() + 1 + k]);
                }
            }
        }
        if p == n {
            break;
        }
        p = p + 1;
    }
}

// ---------------------------------------------------------------------------
// The read_file fallback
// ---------------------------------------------------------------------------

/// The text of an optional string.
pub open spec fn opt_text(o: Option<String>) -> Option<Seq<char>> {
    match o {
        Some(s) => Some(s@),
        None => None,
    }
}

/// The content of the last successful result in `group`.
pub open spec fn last_ok(group: Seq<ToolResult>) -> Option<Seq<char>>
    decreases group.len(),
{
    if group.len() == 0 {
        None
    } else if !group.last().is_error {
        Some(group.last().content@)
    } else {
        last_ok(group.drop_last())
    }
}

/// The content of the last successful result of a `read_file` call among
/// the first `p` calls, in the order of the calls.
pub open spec fn last_read_below(calls: Seq<ToolCall>, results: Seq<ToolResult>, p: int) -> Option<Seq<char>>
    decreases p,
{
    if p <= 0 || p > calls.len() {
        None
    } else {
        let here = if calls[p - 1].function.name@ == "read_file"@ {
            last_ok(results_with_key(calls, results, p - 1))
        } else {
            None
        };
        match here {
            Some(t) => Some(t),
            None => last_read_below(calls, results, p - 1),
        }
    }
}

/// The content of the last successful `read_file` result of a round, in
/// the order of the calls.
pub open spec fn last_read_of(calls: Seq<ToolCall>, results: Seq<ToolResult>) -> Option<Seq<char>> {
    last_read_below(calls, results, calls.len() as int)
}

/// The content of the last successful `read_file` result of a round, in
/// the order of the calls.
pub fn last_successful_read(calls: &Vec<ToolCall>, results: &Vec<ToolResult>) -> (r: Option<String>)
    ensures
        opt_text(r) == last_read_of(calls@, results@),
{
    let read_name = String::from_str("read_file");
    let mut found: Option<String> = None;
    let mut p: usize = 0;
    while p < calls.len()
        invariant
            p <= calls.len(),
            read_name@ == "read_file"@,
            opt_text(found) == last_read_below(calls@, results@, p as int),
        decreases calls.len() - p,
    {
        if calls[p].function.name == read_name {
            let mut in_group: Option<String> = None;
            let mut i: usize = 0;
            while i < results.len()
                invariant
                    i <= results.len(),
                    p < calls.len(),
                    opt_text(in_group) == last_ok(results_with_key(calls@, results@.take(i as int), p as int)),
                decreases results.len() - i,
            {
                proof {
                    assert(results@.take(i + 1).drop_last() =~= results@.take(i as int));
                    assert(results@.take(i + 1).last() == results@[i as int]);
                }
                let key = call_position(calls, &results[i].tool_call_id);
                if key == p && !results[i].is_error {
                    in_group = Some(results[i].content.clone());
                }
                proof {
                    let prev = results_with_key(calls@, results@.take(i as int), p as int);
                    let x = results@[i as int];
                    if result_key(calls@, x) == p as int {
                        assert(results_with_key(calls@, results@.take(i + 1), p as int) == prev.push(x));
                        assert(prev.push(x).drop_last() =~= prev);
                    } else {
                        assert(results_with_key(calls@, results@.take(i + 1), p as int) == prev);
                    }
                }
                i = i + 1;
            }
            proof {
                assert(results@.take(results.len() as int) =~= results@);
            }
            if in_group.is_some() {
                found = in_group;
            }
        }
        p = p + 1;
    }
    found
}

/// An answer shorter than the file it was given gets that file's content
/// appended after a blank line, so the content reaches the user in full.
pub open spec fn with_read_fallback(content: Seq<char>, read: Option<Seq<char>>) -> Seq<char> {
    match read {
        Some(f) => if content.len() < f.len() {
            content + "\n\n"@ + f
        } else {
            content
        },
        None => content,
    }
}

/// `a` is `response` with the read fallback applied to its content.
pub open spec fn answered_with_fallback(a: ConversationResponse, response: ConversationResponse, read: Option<Seq<char>>) -> bool {
    &&& a.content@ == with_read_fallback(response.content@, read)
    &&& a.id == response.id
    &&& a.model == response.model
    &&& a.prompt_tokens == response.prompt_tokens
    &&& a.completion_tokens == response.completion_tokens
    &&& a.tool_calls == response.tool_calls
}

fn apply_read_fallback(response: ConversationResponse, read: &Option<String>) -> (r: ConversationResponse)
    ensures
        answered_with_fallback(r, response, opt_text(*read)),
{
    match read {
        Some(f) => {
            if response.content.as_str().unicode_len() < f.as_str().unicode_len() {
                let ConversationResponse { id, model, content, prompt_tokens, completion_tokens, tool_calls } =
                    response;
                let content = content.concat("\n\n").concat(f.as_str());
                ConversationResponse { id, model, content, prompt_tokens, completion_tokens, tool_calls }
            } else {
                response
            }
        },
        None => response,
    }
}

// ---------------------------------------------------------------------------
// The loop itself
// ---------------------------------------------------------------------------

/// What to do after the backend answered.
pub enum ToolLoopStep {
    /// The answer has no tool calls: it is the loop's result.
    Finished(ConversationResponse),
    /// Run these calls and feed their results back.
    RunTools(Vec<ToolCall>),
}

/// What `begin_pass` does to the passes begun: it answers whether another
/// may begin, and counts it when it does.
pub open spec fn pass_step(before: usize, begun: bool, after: usize) -> bool {
    &&& begun == (before < MAX_PASSES)
    &&& begun ==> after == before + 1
    &&& !begun ==> after == before
}

/// How many of `answers` are `true`.
pub open spec fn count_begun(answers: Seq<bool>) -> nat
    decreases answers.len(),
{
    if answers.len() == 0 {
        0
    } else {
        count_begun(answers.drop_last()) + if answers.last() {
            1nat
        } else {
            0nat
        }
    }
}

/// A run sends one backend request per pass that `begin_pass` lets begin;
/// from a fresh loop (no passes begun), whatever `begin_pass` answers in
/// turn, at most `MAX_PASSES` of its answers are `true`.
pub proof fn lemma_backend_calls_bounded(passes: Seq<usize>, answers: Seq<bool>)
    requires
        passes.len() == answers.len() + 1,
        passes[0] == 0,
        forall|i: int| 0 <= i < answers.len() ==> pass_step(passes[i], #[trigger] answers[i], passes[i + 1]),
    ensures
        count_begun(answers) <= MAX_PASSES,
        count_begun(answers) == passes.last(),
    decreases answers.len(),
{
    if answers.len() > 0 {
        let n = answers.len() - 1;
        let ps = passes.take(passes.len() - 1);
        let ans = answers.drop_last();
        assert forall|i: int| 0 <= i < ans.len() implies pass_step(ps[i], #[trigger] ans[i], ps[i + 1]) by {
            assert(pass_step(passes[i], answers[i], passes[i + 1]));
        }
        lemma_backend_calls_bounded(ps, ans);
        assert(pass_step(passes[n], answers[n], passes[n + 1]));
    }
}

/// One run of the tool loop: the conversation so far, the passes started,
/// the last response that asked for tools, and the content of the last
/// successful `read_file` result.
pub struct ToolLoop {
    pub request: ConversationRequest,
    pub passes: usize,
    pub last_response: Option<ConversationResponse>,
    pub last_read: Option<String>,
}

impl ToolLoop {
    /// No run makes more than `MAX_PASSES` passes.
    pub open spec fn wf(&self) -> bool {
        self.passes <= MAX_PASSES
    }

    pub fn new(request: ConversationRequest) -> (r: Self)
        ensures
            r.wf(),
            r.request == request,
            r.passes == 0,
            r.last_response is None,
            r.last_read is None,
    {
        ToolLoop { request, passes: 0, last_response: None, last_read: None }
    }

    /// Starts another pass, unless all `MAX_PASSES` are spent; the caller
    /// then sends `request` to the backend.
    pub fn begin_pass(&mut self) -> (r: bool)
        requires
            old(self).wf(),
        ensures
            final(self).wf(),
            pass_step(old(self).passes, r, final(self).passes),
            final(self).request == old(self).request,
            final(self).last_response == old(self).last_response,
            final(self).last_read == old(self).last_read,
    {
        if self.passes < MAX_PASSES {
            self.passes = self.passes + 1;
            true
        } else {
            false
        }
    }

    /// The backend answered this pass: an answer without tool calls ends the
    /// loop, with the read fallback applied; otherwise its calls are to be
    /// run.
    pub fn on_response(&mut self, response: ConversationResponse) -> (r: ToolLoopStep)
        ensures
            final(self).request == old(self).request,
            final(self).passes == old(self).passes,
            final(self).last_read == old(self).last_read,
            !requests_tools(response) ==> (r matches ToolLoopStep::Finished(a) && answered_with_fallback(
                a,
                response,
                opt_text(old(self).last_read),
            )) && final(self).last_response == old(self).last_response,
            requests_tools(response) ==> (r matches ToolLoopStep::RunTools(calls) && same_calls(
                calls@,
                response.tool_calls->0@,
            )) && final(self).last_response == Some(response),
    {
        if !response.is_tool_call() {
            return ToolLoopStep::Finished(apply_read_fallback(response, &self.last_read));
        }
        let calls = match &response.tool_calls {
            Some(v) => duplicate_calls(v),
            None => Vec::new(),
        };
        self.last_response = Some(response);
        ToolLoopStep::RunTools(calls)
    }

    /// Feeds the results of this pass's calls back into the conversation,
    /// and keeps the content of the round's last successful `read_file`.
    pub fn on_results(&mut self, calls: Vec<ToolCall>, results: Vec<ToolResult>)
        ensures
            final(self).passes == old(self).passes,
            final(self).last_response == old(self).last_response,
            opt_text(final(self).last_read) == match last_read_of(calls@, results@) {
                Some(t) => Some(t),
                None => opt_text(old(self).last_read),
            },
            ({
                let base = old(self).request.messages@;
                let ord = ordered_results(calls@, results@);
                let msgs = final(self).request.messages@;
                &&& msgs.len() == base.len() + 1 + ord.len()
                &&& msgs.take(base.len() as int) == base
                &&& is_tool_request_message(msgs[base.len() as int], calls)
                &&& forall|k: int|
                    0 <= k < ord.len() ==> is_tool_message(
                        #[trigger] msgs[base.len() + 1 + k],
                        ord[k].tool_call_id@,
                        ord[k].content@,
                    )
            }),
            final(self).request.id == old(self).request.id,
            final(self).request.model == old(self).request.model,
            final(self).request.tool_definitions == old(self).request.tool_definitions,
    {
        let read = last_successful_read(&calls, &results);
        if read.is_some() {
            self.last_read = read;
        }
        record_tool_round(&mut self.request, calls, results);
    }

    /// The loop's result once every pass is spent: the last response, which
    /// still asks for tools.
    pub fn finish(self) -> (r: Option<ConversationResponse>)
        ensures
            r == self.last_response,
    {
        self.last_response
    }
}

} // verus!
