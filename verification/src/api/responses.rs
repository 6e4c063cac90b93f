//! The OpenAI Responses API, mapped onto chat turns.
use vstd::prelude::*;

use crate::api::chat::prefixed_id;
use crate::entities::conversation::new_uuid_v4;
use crate::entities::message::{is_text_message, is_tool_message, is_tool_request_message, Message, Role};
use crate::entities::tool::{is_tool_call, ToolCall};
use crate::text::{chars_of, hex_digits, join, join_chars, string_from_chars};

verus! {

/// A content block of an input item, as much of it as is read: its `type`
/// and `text` members when they are strings.
pub struct TypedBlock {
    pub kind: Option<String>,
    pub text: Option<String>,
}

/// The content of an input item.
pub enum ItemContent {
    /// A JSON string.
    Text(String),
    /// A JSON array of blocks.
    Blocks(Vec<TypedBlock>),
    /// Anything else.
    Other,
}

/// One item of a Responses API input.
pub struct ResponsesInputItem {
    pub kind: String,
    pub role: String,
    pub content: ItemContent,
    pub call_id: Option<String>,
    pub output: Option<String>,
    pub name: Option<String>,
    pub arguments: Option<String>,
    pub id: Option<String>,
}

/// A Responses API input: text, a list of items, or nothing.
pub enum ResponsesInput {
    Text(String),
    Items(Vec<ResponsesInputItem>),
    Empty,
}

/// The texts of the blocks whose type is `text` and that have a text.
pub open spec fn block_texts(blocks: Seq<TypedBlock>) -> Seq<Seq<char>>
    decreases blocks.len(),
{
    if blocks.len() == 0 {
        seq![]
    } else {
        let rest = block_texts(blocks.drop_last());
        let b = blocks.last();
        if b.kind matches Some(k) && k@ == "text"@ && b.text is Some {
            rest.push(b.text->0@)
        } else {
            rest
        }
    }
}

/// The text of an item's content: the string, the text blocks joined by
/// newlines, or nothing.
pub open spec fn item_text(c: ItemContent) -> Seq<char> {
    match c {
        ItemContent::Text(s) => s@,
        ItemContent::Blocks(bs) => join(block_texts(bs@), "\n"@),
        ItemContent::Other => seq![],
    }
}

pub fn extract_text(content: &ItemContent) -> (r: String)
    ensures
        r@ == item_text(*content),
{
    match content {
        ItemContent::Text(s) => s.clone(),
        ItemContent::Blocks(blocks) => {
            let mut parts: Vec<Vec<char>> = Vec::new();
            let text = String::from_str("text");
            let mut i: usize = 0;
            while i < blocks.len()
                invariant
                    i <= blocks.len(),
                    text@ == "text"@,
                    parts@.map_values(|p: Vec<char>| p@) == block_texts(blocks@.take(i as int)),
                decreases blocks.len() - i,
            {
                assert(blocks@.take(i + 1).drop_last() =~= blocks@.take(i as int));
                assert(blocks@.take(i + 1).last() == blocks@[i as int]);
                let b = &blocks[i];
                let is_text = match &b.kind {
                    Some(k) => *k == text,
                    None => false,
                };
                if is_text {
                    match &b.text {
                        Some(t) => {
                            let ghost before = parts@;
                            parts.push(chars_of(t.as_str()));
                            assert(parts@.map_values(|p: Vec<char>| p@) =~= before.map_values(
                                |p: Vec<char>| p@,
                            ).push(t@));
                        },
                        None => {},
                    }
                }
                i = i + 1;
            }
            assert(blocks@.take(blocks.len() as int) =~= blocks@);
            string_from_chars(join_chars(&parts, &chars_of("\n")).as_slice())
        },
        ItemContent::Other => String::new(),
    }
}

/// An item becomes a message: messages, function calls and function call
/// outputs do; other kinds are skipped.
pub open spec fn is_kept(item: ResponsesInputItem) -> bool {
    item.kind@ == "message"@ || item.kind@ == "function_call"@ || item.kind@ == "function_call_output"@
}

pub open spec fn opt_text_or(o: Option<String>, d: Seq<char>) -> Seq<char> {
    match o {
        Some(s) => s@,
        None => d,
    }
}

/// The message `d` stands for the kept item `item`.
pub open spec fn item_converts(item: ResponsesInputItem, d: Message) -> bool {
    if item.kind@ == "message"@ {
        let t = item_text(item.content);
        if item.role@ == "system"@ {
            is_text_message(d, Role::System, t)
        } else if item.role@ == "assistant"@ {
            is_text_message(d, Role::Assistant, t)
        } else {
            is_text_message(d, Role::User, t)
        }
    } else if item.kind@ == "function_call"@ {
        &&& d.role == Role::Assistant
        &&& d.content.len() == 0
        &&& d.tool_call_id is None
        &&& d.tool_calls matches Some(v) && v.len() == 1 && is_tool_call(
            v@[0],
            opt_text_or(item.id, seq![]),
            opt_text_or(item.name, seq![]),
            opt_text_or(item.arguments, "{}"@),
        )
    } else {
        is_tool_message(d, opt_text_or(item.call_id, seq![]), opt_text_or(item.output, seq![]))
    }
}

/// The kept items, in order.
pub open spec fn kept_items(items: Seq<ResponsesInputItem>) -> Seq<ResponsesInputItem>
    decreases items.len(),
{
    if items.len() == 0 {
        seq![]
    } else if is_kept(items.last()) {
        kept_items(items.drop_last()).push(items.last())
    } else {
        kept_items(items.drop_last())
    }
}

fn opt_str(o: &Option<String>, d: &str) -> (r: String)
    ensures
        r@ == opt_text_or(*o, d@),
{
    match o {
        Some(s) => s.clone(),
        None => String::from_str(d),
    }
}

fn opt_str_or_empty(o: &Option<String>) -> (r: String)
    ensures
        r@ == opt_text_or(*o, seq![]),
{
    match o {
        Some(s) => s.clone(),
        None => String::new(),
    }
}

fn convert_item(item: &ResponsesInputItem) -> (r: Option<Message>)
    ensures
        is_kept(*item) ==> (r matches Some(d) && item_converts(*item, d)),
        !is_kept(*item) ==> r is None,
{
    let message = String::from_str("message");
    let function_call = String::from_str("function_call");
    let function_call_output = String::from_str("function_call_output");
    if item.kind == message {
        let text = extract_text(&item.content);
        if item.role == String::from_str("system") {
            Some(Message::system(text.as_str()))
        } else if item.role == String::from_str("assistant") {
            Some(Message::assistant(text.as_str()))
        } else {
            Some(Message::user(text.as_str()))
        }
    } else if item.kind == function_call {
        let name = opt_str_or_empty(&item.name);
        let arguments = opt_str(&item.arguments, "{}");
        let call_id = opt_str_or_empty(&item.id);
        let mut calls: Vec<ToolCall> = Vec::new();
        calls.push(ToolCall::new(call_id.as_str(), name.as_str(), arguments.as_str()));
        Some(Message::assistant_with_tool_calls(calls))
    } else if item.kind == function_call_output {
        let call_id = opt_str_or_empty(&item.call_id);
        let output = opt_str_or_empty(&item.output);
        Some(Message::tool_result(call_id.as_str(), output.as_str()))
    } else {
        None
    }
}

/// The chat turns of a Responses API input.
pub fn input_to_messages(input: ResponsesInput) -> (r: Vec<Message>)
    ensures
        match input {
            ResponsesInput::Text(t) => r.len() == 1 && is_text_message(r@[0], Role::User, t@),
            ResponsesInput::Items(items) => r.len() == kept_items(items@).len() && forall|i: int|
                0 <= i < r.len() ==> item_converts(kept_items(items@)[i], #[trigger] r@[i]),
            ResponsesInput::Empty => r.len() == 0,
        },
{
    match input {
        ResponsesInput::Text(t) => {
            let mut v: Vec<Message> = Vec::new();
            v.push(Message::user(t.as_str()));
            v
        },
        ResponsesInput::Items(items) => {
            let mut out: Vec<Message> = Vec::new();
            let mut i: usize = 0;
            while i < items.len()
                invariant
                    i <= items.len(),
                    out.len() == kept_items(items@.take(i as int)).len(),
                    forall|j: int|
                        0 <= j < out.len() ==> item_converts(
                            kept_items(items@.take(i as int))[j],
                            #[trigger] out@[j],
                        ),
                decreases items.len() - i,
            {
                assert(items@.take(i + 1).drop_last() =~= items@.take(i as int));
                assert(items@.take(i + 1).last() == items@[i as int]);
                match convert_item(&items[i]) {
                    Some(m) => {
                        out.push(m);
                    },
                    None => {},
                }
                i = i + 1;
            }
            assert(items@.take(items.len() as int) =~= items@);
            out
        },
        ResponsesInput::Empty => Vec::new(),
    }
}

/// Whether the conversation waits for the model: its last turn is not the
/// assistant's (an empty conversation does).
pub fn needs_completion(messages: &Vec<Message>) -> (r: bool)
    ensures
        r == (messages.len() == 0 || messages@.last().role != Role::Assistant),
{
    if messages.len() == 0 {
        true
    } else {
        messages[messages.len() - 1].role != Role::Assistant
    }
}

/// One server-sent event of a Responses API answer.
pub enum ResponsesEvent {
    Created { response_id: String, model: String },
    OutputItemAdded { item_id: String },
    ContentPartAdded,
    OutputTextDelta { delta: String },
    OutputTextDone { text: String },
    OutputItemDone { item_id: String, text: String },
    Completed { response_id: String, model: String, item_id: String, text: String },
}

/// The events that deliver `text` as one assistant message: created, item
/// added, part added, the whole text as one delta, text done, item done,
/// completed.
pub open spec fn events_deliver(ev: Seq<ResponsesEvent>, response_id: Seq<char>, item_id: Seq<char>, model: Seq<char>, text: Seq<char>) -> bool {
    &&& ev.len() == 7
    &&& ev[0] matches ResponsesEvent::Created { response_id: r, model: m } && r@ == response_id && m@ == model
    &&& ev[1] matches ResponsesEvent::OutputItemAdded { item_id: i } && i@ == item_id
    &&& ev[2] is ContentPartAdded
    &&& ev[3] matches ResponsesEvent::OutputTextDelta { delta: d } && d@ == text
    &&& ev[4] matches ResponsesEvent::OutputTextDone { text: t } && t@ == text
    &&& ev[5] matches ResponsesEvent::OutputItemDone { item_id: i, text: t } && i@ == item_id && t@ == text
    &&& ev[6] matches ResponsesEvent::Completed { response_id: r, model: m, item_id: i, text: t }
        && r@ == response_id && m@ == model && i@ == item_id && t@ == text
}

/// The events of a Responses API answer that delivers `text`.
pub fn response_events(response_id: &str, item_id: &str, model: &str, text: &str) -> (r: Vec<ResponsesEvent>)
    ensures
        events_deliver(r@, response_id@, item_id@, model@, text@),
{
    let mut v: Vec<ResponsesEvent> = Vec::new();
    v.push(ResponsesEvent::Created { response_id: String::from_str(response_id), model: String::from_str(model) });
    v.push(ResponsesEvent::OutputItemAdded { item_id: String::from_str(item_id) });
    v.push(ResponsesEvent::ContentPartAdded);
    v.push(ResponsesEvent::OutputTextDelta { delta: String::from_str(text) });
    v.push(ResponsesEvent::OutputTextDone { text: String::from_str(text) });
    v.push(ResponsesEvent::OutputItemDone { item_id: String::from_str(item_id), text: String::from_str(text) });
    v.push(
        ResponsesEvent::Completed {
            response_id: String::from_str(response_id),
            model: String::from_str(model),
            item_id: String::from_str(item_id),
            text: String::from_str(text),
        },
    );
    v
}

/// The response and item ids of an answer to the conversation with id
/// `id`: `resp_` and `msg_` with its 32 hexadecimal digits.
pub fn answer_ids(id: u128) -> (r: (String, String))
    ensures
        r.0@ == "resp_"@ + hex_digits(id as nat, 32),
        r.1@ == "msg_"@ + hex_digits(id as nat, 32),
{
    (prefixed_id("resp_", id), prefixed_id("msg_", id))
}

/// Fresh response and item ids for an echoed answer.
pub fn echo_ids() -> (r: (String, String))
    ensures
        exists|a: u128| r.0@ == "resp_"@ + hex_digits(a as nat, 32),
        exists|b: u128| r.1@ == "msg_"@ + hex_digits(b as nat, 32),
{
    let a = new_uuid_v4();
    let b = new_uuid_v4();
    (prefixed_id("resp_", a), prefixed_id("msg_", b))
}

} // verus!
