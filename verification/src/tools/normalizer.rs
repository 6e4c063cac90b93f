//! Turns what a model wrote into tool calls.
//!
//! The formats are tried in priority order:
//!   - Ollama's structured `tool_calls` array,
//!   - Qwen XML: `<tool_call>{...}</tool_call>` blocks in the content,
//!   - DeepSeek markdown: "```json" fences holding `name` and `arguments`,
//!   - last, the whole answer as `{"function_name": ..., "function_arg": ...}`.
use vstd::prelude::*;

use crate::entities::tool::{is_call_id, new_tool_call_id, FunctionCall, ToolCall};
use crate::ollama::types::{OllamaMessageContent, OllamaToolCall};
use crate::ports::llm_backend::BackendError;
use crate::json::{
    find_member, json_object_members, json_to_string, json_written, member_named, members_view, parse_json,
    str_field, str_member, JsonMember,
};
use crate::text::{
    chars_of, contains, contains_chars, decimal, decimal_string, find_chars_from, find_from,
    lemma_find_from_in_range, slice_chars, starts_with, string_from_chars, trim, trim_chars,
};

verus! {

// ---------------------------------------------------------------------------
// The text of a tool call's members
// ---------------------------------------------------------------------------

/// The text a member stands for as tool arguments: a string's own text, an
/// unsigned integer's decimal digits, what serde_json writes for any other
/// value, and `null` when the member is missing.
pub open spec fn member_text(ms: Seq<(Seq<char>, (Option<Seq<char>>, Option<u64>, Option<Seq<char>>))>, key: Seq<char>) -> Option<Seq<char>> {
    match member_named(ms, key) {
        Some((Some(t), _, _)) => Some(t),
        Some((None, Some(u), _)) => Some(decimal(u as nat)),
        Some((None, None, w)) => w,
        None => Some("null"@),
    }
}

/// The text of the `arguments` member.
pub open spec fn arguments_text(ms: Seq<(Seq<char>, (Option<Seq<char>>, Option<u64>, Option<Seq<char>>))>) -> Option<Seq<char>> {
    member_text(ms, "arguments"@)
}

/// The text of the member `key` of a parsed object, as tool arguments.
fn member_text_of(ms: &Vec<(String, JsonMember)>, key: &str) -> (r: String)
    ensures
        member_text(members_view(ms@), key@) == Some(r@),
{
    match find_member(ms, key) {
        None => String::from_str("null"),
        Some(i) => match &ms[i].1 {
            JsonMember::Text(t) => t.clone(),
            JsonMember::Unsigned(u) => decimal_string(*u as u128),
            JsonMember::Other(v) => match json_to_string(v) {
                Ok(t) => t,
                Err(_) => String::new(),
            },
        },
    }
}

/// What a tool call written as JSON text holds: `None` when the text is not
/// JSON; otherwise the `name` member when it is a string, and the text of
/// the `arguments` member where it is known.
pub open spec fn json_tool_call_fields(text: Seq<char>) -> Option<(Option<Seq<char>>, Option<Seq<char>>)> {
    match json_object_members(text) {
        None => None,
        Some(ms) => Some((str_field(ms, "name"@), arguments_text(ms))),
    }
}

// ---------------------------------------------------------------------------
// One tool call object
// ---------------------------------------------------------------------------

/// `text` is JSON with a string `name`.
pub open spec fn names_a_tool(text: Seq<char>) -> bool {
    json_tool_call_fields(text) matches Some((Some(_), _))
}

/// `c` is the tool call read from `text`: a fresh id, kind `function`, the
/// `name` member, and the text of the `arguments` member.
pub open spec fn parsed_call(c: ToolCall, text: Seq<char>) -> bool {
    &&& json_tool_call_fields(text) matches Some((Some(n), a))
    &&& c.kind@ == "function"@
    &&& is_call_id(c.id@)
    &&& c.function.name@ == n
    &&& (a matches Some(t) ==> c.function.arguments@ == t)
}

/// A stream-parse error with the message `msg`.
pub open spec fn stream_parse_error(e: BackendError, msg: Seq<char>) -> bool {
    e matches BackendError::StreamParse(m) && m@ == msg
}

/// Parses a JSON object with `name` and `arguments` into a tool call;
/// `arguments` may be a JSON object or a JSON string.
pub fn parse_tool_call_json(json_str: &str) -> (r: Result<ToolCall, BackendError>)
    ensures
        r matches Ok(c) ==> parsed_call(c, json_str@),
        r matches Err(e) ==> e is StreamParse,
        names_a_tool(json_str@) ==> r is Ok,
        json_tool_call_fields(json_str@) is None ==> (r matches Err(BackendError::StreamParse(m))
            && starts_with(m@, "invalid tool call JSON: "@)),
        json_tool_call_fields(json_str@) matches Some((None, _)) ==> (r matches Err(e)
            && stream_parse_error(e, "tool call missing 'name' field"@)),
{
    match parse_json(json_str) {
        Err(e) => {
            let m = String::from_str("invalid tool call JSON: ").concat(e.as_str());
            proof {
                reveal_strlit("invalid tool call JSON: ");
                assert(m@.subrange(0, 24) =~= "invalid tool call JSON: "@);
            }
            Err(BackendError::StreamParse(m))
        },
        Ok(parsed) => match str_member(&parsed.members, "name") {
            None => Err(BackendError::StreamParse(String::from_str("tool call missing 'name' field"))),
            Some(name) => {
                let arguments = member_text_of(&parsed.members, "arguments");
                Ok(
                    ToolCall {
                        id: new_tool_call_id(),
                        kind: String::from_str("function"),
                        function: FunctionCall { name, arguments },
                    },
                )
            },
        },
    }
}

// ---------------------------------------------------------------------------
// Blocks between tags
// ---------------------------------------------------------------------------

/// The texts between `open` and the next `close`, scanning from `k`, and
/// whether the scan ended at an `open` without a `close`.
pub open spec fn blocks_from(s: Seq<char>, open: Seq<char>, close: Seq<char>, k: int) -> (
    Seq<Seq<char>>,
    bool,
)
    decreases s.len() - k,
{
    if open.len() == 0 || k < 0 || k > s.len() {
        (seq![], false)
    } else {
        proof {
            lemma_find_from_in_range(s, open, k);
        }
        match find_from(s, open, k) {
            None => (seq![], false),
            Some(i) => {
                proof {
                    lemma_find_from_in_range(s, close, i + open.len());
                }
                match find_from(s, close, i + open.len()) {
                    None => (seq![], true),
                    Some(j) => {
                        let rest = blocks_from(s, open, close, j + close.len());
                        (seq![s.subrange(i + open.len(), j)] + rest.0, rest.1)
                    },
                }
            },
        }
    }
}

/// The blocks of `s` between `open` and `close`, and whether one is unclosed.
pub open spec fn tag_blocks(s: Seq<char>, open: Seq<char>, close: Seq<char>) -> (Seq<Seq<char>>, bool) {
    blocks_from(s, open, close, 0)
}

/// A block is read as a tool call: always in XML, and in a markdown fence
/// only when its trimmed text mentions both `"name"` and `"arguments"`.
pub open spec fn is_candidate(b: Seq<char>, fenced: bool) -> bool {
    !fenced || (contains(trim(b), "\"name\""@) && contains(trim(b), "\"arguments\""@))
}

/// The blocks read as tool calls, in order.
pub open spec fn candidates(blocks: Seq<Seq<char>>, fenced: bool) -> Seq<Seq<char>>
    decreases blocks.len(),
{
    if blocks.len() == 0 {
        seq![]
    } else if is_candidate(blocks.last(), fenced) {
        candidates(blocks.drop_last(), fenced).push(blocks.last())
    } else {
        candidates(blocks.drop_last(), fenced)
    }
}

proof fn lemma_candidates_add(a: Seq<Seq<char>>, b: Seq<Seq<char>>, fenced: bool)
    ensures
        candidates(a + b, fenced) == candidates(a, fenced) + candidates(b, fenced),
    decreases b.len(),
{
    if b.len() == 0 {
        assert(a + b =~= a);
        assert(candidates(a, fenced) + candidates(b, fenced) =~= candidates(a, fenced));
    } else {
        lemma_candidates_add(a, b.drop_last(), fenced);
        assert((a + b).drop_last() =~= a + b.drop_last());
        assert((a + b).last() == b.last());
        if is_candidate(b.last(), fenced) {
            assert(candidates(a, fenced) + candidates(b.drop_last(), fenced).push(b.last())
                =~= (candidates(a, fenced) + candidates(b.drop_last(), fenced)).push(b.last()));
        }
    }
}

/// `calls` are the tool calls read from `blocks`, one each, in order.
pub open spec fn calls_from_blocks(blocks: Seq<Seq<char>>, calls: Seq<ToolCall>) -> bool {
    calls.len() == blocks.len() && forall|i: int|
        0 <= i < blocks.len() ==> parsed_call(#[trigger] calls[i], trim(blocks[i]))
}

/// Reads every candidate block of `content` as a tool call.
fn parse_blocks(content: &Vec<char>, open: &Vec<char>, close: &Vec<char>, fenced: bool, unclosed_msg: &str) -> (r:
    Result<Vec<ToolCall>, BackendError>)
    requires
        open.len() > 0,
    ensures
        ({
            let (blocks, unclosed) = tag_blocks(content@, open@, close@);
            let cands = candidates(blocks, fenced);
            &&& r matches Ok(calls) ==> !unclosed && calls_from_blocks(cands, calls@)
            &&& r matches Err(e) ==> e is StreamParse
            &&& (!unclosed && forall|i: int|
                0 <= i < cands.len() ==> names_a_tool(trim(#[trigger] cands[i]))) ==> r is Ok
            &&& (unclosed || exists|i: int|
                0 <= i < cands.len() && !names_a_tool(trim(#[trigger] cands[i]))) ==> r is Err
            &&& (unclosed && forall|i: int|
                0 <= i < cands.len() ==> names_a_tool(trim(#[trigger] cands[i]))) ==> (r matches Err(e)
                && stream_parse_error(e, unclosed_msg@))
        }),
{
    let ghost s = content@;
    let ghost all = tag_blocks(s, open@, close@);
    let ghost mut done: Seq<Seq<char>> = seq![];
    let mut calls: Vec<ToolCall> = Vec::new();
    let mut k: usize = 0;
    loop
        invariant
            s == content@,
            open.len() > 0,
            k <= content.len(),
            all == tag_blocks(s, open@, close@),
            all.0 == done + blocks_from(s, open@, close@, k as int).0,
            all.1 == blocks_from(s, open@, close@, k as int).1,
            calls_from_blocks(candidates(done, fenced), calls@),
        decreases content.len() - k,
    {
        proof {
            lemma_find_from_in_range(s, open@, k as int);
        }
        let i = match find_chars_from(content, open, k) {
            None => {
                assert(all.0 =~= done);
                let ghost cands = candidates(done, fenced);
                proof {
                    assert forall|t: int| 0 <= t < cands.len() implies names_a_tool(trim(#[trigger] cands[t])) by {
                        assert(parsed_call(calls@[t], trim(cands[t])));
                    }
                }
                return Ok(calls);
            },
            Some(i) => i,
        };
        let start = i + open.len();
        proof {
            lemma_find_from_in_range(s, close@, start as int);
        }
        let j = match find_chars_from(content, close, start) {
            None => {
                assert(all.0 =~= done);
                let ghost cands = candidates(done, fenced);
                proof {
                    assert forall|t: int| 0 <= t < cands.len() implies names_a_tool(trim(#[trigger] cands[t])) by {
                        assert(parsed_call(calls@[t], trim(cands[t])));
                    }
                }
                return Err(BackendError::StreamParse(String::from_str(unclosed_msg)));
            },
            Some(j) => j,
        };
        let block = slice_chars(content, start, j);
        let ghost rest = blocks_from(s, open@, close@, j + close.len());
        proof {
            assert(blocks_from(s, open@, close@, k as int).0 == seq![block@] + rest.0);
            assert(all.0 =~= (done + seq![block@]) + rest.0);
            lemma_candidates_add(done, seq![block@], fenced);
            lemma_candidates_add(done + seq![block@], rest.0, fenced);
            lemma_candidates_add(done, seq![block@] + rest.0, fenced);
            lemma_candidates_add(seq![block@], rest.0, fenced);
            assert(seq![block@].drop_last() =~= Seq::<Seq<char>>::empty());
        }
        let trimmed = trim_chars(&block);
        let wanted = if fenced {
            contains_chars(&trimmed, &chars_of("\"name\"")) && contains_chars(&trimmed, &chars_of("\"arguments\""))
        } else {
            true
        };
        assert(wanted == is_candidate(block@, fenced));
        let ghost old_calls = calls@;
        proof {
            assert(candidates(seq![block@], fenced) == if is_candidate(block@, fenced) {
                candidates(Seq::<Seq<char>>::empty(), fenced).push(block@)
            } else {
                candidates(Seq::<Seq<char>>::empty(), fenced)
            });
        }
        if wanted {
            let text = string_from_chars(trimmed.as_slice());
            match parse_tool_call_json(text.as_str()) {
                Ok(call) => {
                    calls.push(call);
                },
                Err(e) => {
                    proof {
                        let cands = candidates(all.0, fenced);
                        let idx = candidates(done, fenced).len() as int;
                        assert(all.0 =~= done + (seq![block@] + rest.0));
                        assert(candidates(seq![block@], fenced) == candidates(
                            Seq::<Seq<char>>::empty(),
                            fenced,
                        ).push(block@));
                        assert(candidates(seq![block@], fenced) =~= seq![block@]);
                        assert(cands == candidates(done, fenced) + (seq![block@] + candidates(rest.0, fenced)));
                        assert(cands[idx] == block@);
                    }
                    return Err(e);
                },
            }
        }
        proof {
            let c0 = candidates(done, fenced);
            let c1 = candidates(done + seq![block@], fenced);
            if wanted {
                assert(candidates(seq![block@], fenced) =~= seq![block@]);
                assert(c1 =~= c0.push(block@));
                assert forall|t: int| 0 <= t < c1.len() implies parsed_call(#[trigger] calls@[t], trim(c1[t])) by {
                    if t < c0.len() {
                        assert(calls@[t] == old_calls[t]);
                        assert(parsed_call(old_calls[t], trim(c0[t])));
                    }
                }
            } else {
                assert(candidates(seq![block@], fenced) =~= Seq::<Seq<char>>::empty());
                assert(c1 =~= c0);
            }
            done = done + seq![block@];
        }
        k = j + close.len();
    }
}

// ---------------------------------------------------------------------------
// The three formats
// ---------------------------------------------------------------------------

/// Qwen XML: every `<tool_call>...</tool_call>` block holds one call.
pub fn parse_qwen_xml(content: &str) -> (r: Result<Vec<ToolCall>, BackendError>)
    ensures
        ({
            let (blocks, unclosed) = tag_blocks(content@, "<tool_call>"@, "</tool_call>"@);
            &&& r matches Ok(calls) ==> !unclosed && calls_from_blocks(blocks, calls@)
            &&& r matches Err(e) ==> e is StreamParse
            &&& (!unclosed && forall|i: int|
                0 <= i < blocks.len() ==> names_a_tool(trim(#[trigger] blocks[i]))) ==> r is Ok
            &&& (unclosed || exists|i: int|
                0 <= i < blocks.len() && !names_a_tool(trim(#[trigger] blocks[i]))) ==> r is Err
            &&& (unclosed && forall|i: int|
                0 <= i < blocks.len() ==> names_a_tool(trim(#[trigger] blocks[i]))) ==> (r matches Err(e)
                && stream_parse_error(e, "unclosed <tool_call> tag"@))
        }),
{
    let open = chars_of("<tool_call>");
    let close = chars_of("</tool_call>");
    proof {
        reveal_strlit("<tool_call>");
        let blocks = tag_blocks(content@, "<tool_call>"@, "</tool_call>"@).0;
        lemma_candidates_all(blocks);
    }
    parse_blocks(&chars_of(content), &open, &close, false, "unclosed <tool_call> tag")
}

proof fn lemma_candidates_all(blocks: Seq<Seq<char>>)
    ensures
        candidates(blocks, false) == blocks,
    decreases blocks.len(),
{
    if blocks.len() > 0 {
        lemma_candidates_all(blocks.drop_last());
        assert(blocks.drop_last().push(blocks.last()) =~= blocks);
    }
}

/// The content looks like a DeepSeek tool call: a JSON fence mentioning
/// both `"name"` and `"arguments"`.
pub open spec fn looks_like_fenced_call(content: Seq<char>) -> bool {
    contains(content, "```json"@) && contains(content, "\"name\""@) && contains(content, "\"arguments\""@)
}

pub fn looks_like_deepseek_tool_call(content: &str) -> (r: bool)
    ensures
        r == looks_like_fenced_call(content@),
{
    let c = chars_of(content);
    contains_chars(&c, &chars_of("```json")) && contains_chars(&c, &chars_of("\"name\""))
        && contains_chars(&c, &chars_of("\"arguments\""))
}

/// DeepSeek markdown: every "```json" fence whose text mentions both
/// `"name"` and `"arguments"` holds one call; other fences are skipped.
pub fn parse_deepseek_markdown(content: &str) -> (r: Result<Vec<ToolCall>, BackendError>)
    ensures
        ({
            let (blocks, unclosed) = tag_blocks(content@, "```json"@, "```"@);
            let cands = candidates(blocks, true);
            &&& r matches Ok(calls) ==> !unclosed && calls_from_blocks(cands, calls@)
            &&& r matches Err(e) ==> e is StreamParse
            &&& (!unclosed && forall|i: int|
                0 <= i < cands.len() ==> names_a_tool(trim(#[trigger] cands[i]))) ==> r is Ok
            &&& (unclosed || exists|i: int|
                0 <= i < cands.len() && !names_a_tool(trim(#[trigger] cands[i]))) ==> r is Err
            &&& (unclosed && forall|i: int|
                0 <= i < cands.len() ==> names_a_tool(trim(#[trigger] cands[i]))) ==> (r matches Err(e)
                && stream_parse_error(e, "unclosed markdown fence"@))
        }),
{
    let open = chars_of("```json");
    let close = chars_of("```");
    proof {
        reveal_strlit("```json");
    }
    parse_blocks(&chars_of(content), &open, &close, true, "unclosed markdown fence")
}

/// The last format tried: the whole answer, trimmed, is a JSON object naming a tool
/// with a string `function_name`; its arguments are the `function_arg`
/// member. The tool's name and the arguments text, when it is so.
pub open spec fn function_name_call(content: Seq<char>) -> Option<(Seq<char>, Seq<char>)> {
    match json_object_members(trim(content)) {
        Some(ms) => match (str_field(ms, "function_name"@), member_text(ms, "function_arg"@)) {
            (Some(n), Some(a)) => Some((n, a)),
            _ => None,
        },
        None => None,
    }
}

/// `calls` is the single call that `content` names in the `function_name`
/// form.
pub open spec fn calls_from_function_name(content: Seq<char>, calls: Seq<ToolCall>) -> bool {
    &&& function_name_call(content) matches Some((n, a))
    &&& calls.len() == 1
    &&& calls[0].kind@ == "function"@
    &&& is_call_id(calls[0].id@)
    &&& calls[0].function.name@ == n
    &&& calls[0].function.arguments@ == a
}

/// Reads an answer written as `{"function_name": ..., "function_arg": ...}`
/// as one tool call; `None` for any other answer.
pub fn parse_function_name_call(content: &str) -> (r: Option<Vec<ToolCall>>)
    ensures
        match r {
            Some(calls) => calls_from_function_name(content@, calls@),
            None => function_name_call(content@) is None,
        },
{
    let trimmed = string_from_chars(trim_chars(&chars_of(content)).as_slice());
    match parse_json(trimmed.as_str()) {
        Err(_) => None,
        Ok(parsed) => match str_member(&parsed.members, "function_name") {
            None => None,
            Some(name) => {
                let arguments = member_text_of(&parsed.members, "function_arg");
                let mut calls: Vec<ToolCall> = Vec::new();
                calls.push(
                    ToolCall {
                        id: new_tool_call_id(),
                        kind: String::from_str("function"),
                        function: FunctionCall { name, arguments },
                    },
                );
                Some(calls)
            },
        },
    }
}

// ---------------------------------------------------------------------------
// The normalizer
// ---------------------------------------------------------------------------

/// The message carries at least one structured tool call.
pub open spec fn has_structured_calls(msg: OllamaMessageContent) -> bool {
    msg.tool_calls matches Some(v) && v.len() > 0
}

/// `calls` are the structured calls `raw`, one each, in order, with fresh
/// ids and their arguments written as JSON text.
pub open spec fn calls_from_structured(raw: Seq<OllamaToolCall>, calls: Seq<ToolCall>) -> bool {
    calls.len() == raw.len() && forall|i: int|
        0 <= i < raw.len() ==> {
            &&& (#[trigger] calls[i]).kind@ == "function"@
            &&& is_call_id(calls[i].id@)
            &&& calls[i].function.name@ == raw[i].function.name@
            &&& calls[i].function.arguments@ == json_written(raw[i].function.arguments)
        }
}

fn read_structured_calls(raw: &Vec<OllamaToolCall>) -> (r: Result<Vec<ToolCall>, BackendError>)
    ensures
        r matches Ok(calls) && calls_from_structured(raw@, calls@),
{
    let mut calls: Vec<ToolCall> = Vec::new();
    let mut i: usize = 0;
    while i < raw.len()
        invariant
            i <= raw.len(),
            calls_from_structured(raw@.take(i as int), calls@),
        decreases raw.len() - i,
    {
        let arguments = match json_to_string(&raw[i].function.arguments) {
            Ok(a) => a,
            Err(e) => {
                return Err(BackendError::StreamParse(e));
            },
        };
        let call = ToolCall {
            id: new_tool_call_id(),
            kind: String::from_str("function"),
            function: FunctionCall { name: raw[i].function.name.clone(), arguments },
        };
        let ghost before = calls@;
        calls.push(call);
        proof {
            assert forall|t: int| 0 <= t < i + 1 implies {
                &&& (#[trigger] calls@[t]).kind@ == "function"@
                &&& is_call_id(calls@[t].id@)
                &&& calls@[t].function.name@ == raw@.take(i + 1)[t].function.name@
                &&& calls@[t].function.arguments@ == json_written(raw@.take(i + 1)[t].function.arguments)
            } by {
                if t < i {
                    assert(calls@[t] == before[t]);
                    assert(raw@.take(i as int)[t] == raw@.take(i + 1)[t]);
                }
            }
        }
        i = i + 1;
    }
    assert(raw@.take(raw.len() as int) =~= raw@);
    Ok(calls)
}

/// What `normalize` answers for a message: a structured call list wins;
/// then `<tool_call>` blocks; then fenced JSON calls; then an answer that is
/// a `function_name` object; else no calls. A tag or fence format that is
/// malformed is a parse error.
pub open spec fn normalizes_to(msg: OllamaMessageContent, r: Result<Option<Vec<ToolCall>>, BackendError>) -> bool {
    &&& (r matches Err(e) ==> e is StreamParse)
    &&& (r matches Ok(Some(calls)) ==> calls.len() > 0)
    &&& (has_structured_calls(msg) ==> (r matches Ok(Some(calls)) && calls_from_structured(
        msg.tool_calls->0@,
        calls@,
    )))
    &&& (!has_structured_calls(msg) && contains(msg.content@, "<tool_call>"@) ==> ({
        let (blocks, unclosed) = tag_blocks(msg.content@, "<tool_call>"@, "</tool_call>"@);
        &&& r matches Ok(Some(calls)) ==> !unclosed && calls_from_blocks(blocks, calls@)
        &&& !(r matches Ok(None))
        &&& (!unclosed && forall|i: int|
            0 <= i < blocks.len() ==> names_a_tool(trim(#[trigger] blocks[i]))) ==> r is Ok
        &&& (unclosed || exists|i: int|
            0 <= i < blocks.len() && !names_a_tool(trim(#[trigger] blocks[i]))) ==> r is Err
    }))
    &&& (!has_structured_calls(msg) && !contains(msg.content@, "<tool_call>"@) && looks_like_fenced_call(
        msg.content@,
    ) ==> ({
        let (blocks, unclosed) = tag_blocks(msg.content@, "```json"@, "```"@);
        let cands = candidates(blocks, true);
        &&& r matches Ok(Some(calls)) ==> !unclosed && if cands.len() > 0 {
            calls_from_blocks(cands, calls@)
        } else {
            calls_from_function_name(msg.content@, calls@)
        }
        &&& r matches Ok(None) ==> !unclosed && cands.len() == 0 && function_name_call(msg.content@) is None
        &&& (!unclosed && forall|i: int|
            0 <= i < cands.len() ==> names_a_tool(trim(#[trigger] cands[i]))) ==> r is Ok
        &&& (unclosed || exists|i: int|
            0 <= i < cands.len() && !names_a_tool(trim(#[trigger] cands[i]))) ==> r is Err
    }))
    &&& (!has_structured_calls(msg) && !contains(msg.content@, "<tool_call>"@) && !looks_like_fenced_call(
        msg.content@,
    ) ==> match function_name_call(msg.content@) {
        Some(_) => r matches Ok(Some(calls)) && calls_from_function_name(msg.content@, calls@),
        None => r matches Ok(None),
    })
}

/// Converts raw Ollama message content into tool calls.
pub struct ToolCallNormalizer;

impl ToolCallNormalizer {
    /// The tool calls in an Ollama message, tried in priority order
    /// (structured, Qwen XML, DeepSeek markdown, `function_name` object), or
    /// `None` for a plain text
    /// answer. Fails only when a recognised format is present but malformed.
    pub fn normalize(msg: &OllamaMessageContent) -> (r: Result<Option<Vec<ToolCall>>, BackendError>)
        ensures
            normalizes_to(*msg, r),
    {
        if let Some(raw) = &msg.tool_calls {
            if raw.len() > 0 {
                let calls = read_structured_calls(raw)?;
                return Ok(Some(calls));
            }
        }
        let content = chars_of(msg.content.as_str());
        if contains_chars(&content, &chars_of("<tool_call>")) {
            let calls = parse_qwen_xml(msg.content.as_str())?;
            if calls.len() > 0 {
                return Ok(Some(calls));
            }
            proof {
                reveal_strlit("<tool_call>");
                let t = tag_blocks(msg.content@, "<tool_call>"@, "</tool_call>"@);
                assert(t.1 || t.0.len() > 0);
            }
            return Err(
                BackendError::StreamParse(
                    String::from_str("found <tool_call> tag but extracted no valid calls"),
                ),
            );
        }
        if looks_like_deepseek_tool_call(msg.content.as_str()) {
            let calls = parse_deepseek_markdown(msg.content.as_str())?;
            if calls.len() > 0 {
                return Ok(Some(calls));
            }
        }
        Ok(parse_function_name_call(msg.content.as_str()))
    }
}

} // verus!
