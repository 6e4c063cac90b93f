use vstd::prelude::*;

use crate::entities::tool::{duplicate_calls, same_calls, ToolCall};

verus! {

/// Who authored a message.
#[derive(Debug, Clone, Copy, PartialEq, Eq, Structural)]
pub enum Role {
    System,
    User,
    Assistant,
    Tool,
}

/// The lowercase wire name of a role.
pub open spec fn role_name(r: Role) -> Seq<char> {
    match r {
        Role::System => "system"@,
        Role::User => "user"@,
        Role::Assistant => "assistant"@,
        Role::Tool => "tool"@,
    }
}

impl Role {
    /// The lowercase wire name (`system`, `user`, `assistant`, `tool`).
    pub fn to_string(&self) -> (r: String)
        ensures
            r@ == role_name(*self),
    {
        match self {
            Role::System => String::from_str("system"),
            Role::User => String::from_str("user"),
            Role::Assistant => String::from_str("assistant"),
            Role::Tool => String::from_str("tool"),
        }
    }
}

/// One part of a message's content.
#[derive(Debug, Clone)]
pub enum ContentPart {
    Text(String),
}

/// The text of a content part.
pub open spec fn part_text(p: ContentPart) -> Seq<char> {
    match p {
        ContentPart::Text(s) => s@,
    }
}

/// A conversation turn.
///
/// `tool_calls` is set on assistant turns that request tools; `tool_call_id`
/// links a tool turn to the call whose result it carries.
#[derive(Debug, Clone)]
pub struct Message {
    pub role: Role,
    pub content: Vec<ContentPart>,
    pub tool_calls: Option<Vec<ToolCall>>,
    pub tool_call_id: Option<String>,
}

/// A message of the given role whose content is the single text `t`.
pub open spec fn is_text_message(m: Message, role: Role, t: Seq<char>) -> bool {
    &&& m.role == role
    &&& m.content.len() == 1
    &&& part_text(m.content[0]) == t
    &&& m.tool_calls is None
    &&& m.tool_call_id is None
}

/// A tool turn carrying `content` as the result of the call with id `id`.
pub open spec fn is_tool_message(m: Message, id: Seq<char>, content: Seq<char>) -> bool {
    &&& m.role == Role::Tool
    &&& m.content.len() == 1
    &&& part_text(m.content[0]) == content
    &&& m.tool_calls is None
    &&& m.tool_call_id matches Some(i) && i@ == id
}

/// An assistant turn without text that requests exactly `calls`.
pub open spec fn is_tool_request_message(m: Message, calls: Vec<ToolCall>) -> bool {
    &&& m.role == Role::Assistant
    &&& m.content.len() == 0
    &&& m.tool_calls == Some(calls)
    &&& m.tool_call_id is None
}

/// The text of a message made of exactly one part.
pub open spec fn single_text(m: Message) -> Option<Seq<char>> {
    if m.content.len() == 1 {
        Some(part_text(m.content[0]))
    } else {
        None
    }
}

impl Message {
    pub fn text(role: Role, text: &str) -> (r: Self)
        ensures
            is_text_message(r, role, text@),
    {
        let mut content: Vec<ContentPart> = Vec::new();
        content.push(ContentPart::Text(String::from_str(text)));
        Message { role, content, tool_calls: None, tool_call_id: None }
    }

    pub fn user(text: &str) -> (r: Self)
        ensures
            is_text_message(r, Role::User, text@),
    {
        Self::text(Role::User, text)
    }

    pub fn assistant(text: &str) -> (r: Self)
        ensures
            is_text_message(r, Role::Assistant, text@),
    {
        Self::text(Role::Assistant, text)
    }

    pub fn system(text: &str) -> (r: Self)
        ensures
            is_text_message(r, Role::System, text@),
    {
        Self::text(Role::System, text)
    }

    /// An assistant turn that requests the given tool calls and has no text.
    pub fn assistant_with_tool_calls(calls: Vec<ToolCall>) -> (r: Self)
        ensures
            is_tool_request_message(r, calls),
    {
        Message { role: Role::Assistant, content: Vec::new(), tool_calls: Some(calls), tool_call_id: None }
    }

    /// A tool turn carrying the result of the call with id `tool_call_id`.
    pub fn tool_result(tool_call_id: &str, content: &str) -> (r: Self)
        ensures
            is_tool_message(r, tool_call_id@, content@),
    {
        let mut parts: Vec<ContentPart> = Vec::new();
        parts.push(ContentPart::Text(String::from_str(content)));
        Message {
            role: Role::Tool,
            content: parts,
            tool_calls: None,
            tool_call_id: Some(String::from_str(tool_call_id)),
        }
    }

    /// The flat text if there is exactly one text part.
    pub fn text_content(&self) -> (r: Option<&str>)
        ensures
            match r {
                Some(s) => single_text(*self) == Some(s@),
                None => single_text(*self) is None,
            },
    {
        if self.content.len() == 1 {
            match &self.content[0] {
                ContentPart::Text(s) => Some(s.as_str()),
            }
        } else {
            None
        }
    }
}

/// Two messages with the same role, part texts, tool calls and call id.
pub open spec fn same_message(a: Message, b: Message) -> bool {
    &&& a.role == b.role
    &&& a.content.len() == b.content.len()
    &&& forall|i: int| 0 <= i < a.content.len() ==> part_text(#[trigger] a.content[i]) == part_text(b.content[i])
    &&& match (a.tool_calls, b.tool_calls) {
        (Some(x), Some(y)) => same_calls(x@, y@),
        (None, None) => true,
        _ => false,
    }
    &&& match (a.tool_call_id, b.tool_call_id) {
        (Some(x), Some(y)) => x@ == y@,
        (None, None) => true,
        _ => false,
    }
}

/// Two lists of the same messages, in the same order.
pub open spec fn same_messages(a: Seq<Message>, b: Seq<Message>) -> bool {
    a.len() == b.len() && forall|i: int| 0 <= i < a.len() ==> same_message(#[trigger] a[i], b[i])
}

impl ContentPart {
    pub fn duplicate(&self) -> (r: Self)
        ensures
            part_text(r) == part_text(*self),
    {
        match self {
            ContentPart::Text(s) => ContentPart::Text(s.clone()),
        }
    }
}

impl Message {
    /// A copy of this message.
    pub fn duplicate(&self) -> (r: Self)
        ensures
            same_message(r, *self),
    {
        let mut content: Vec<ContentPart> = Vec::new();
        let mut i: usize = 0;
        while i < self.content.len()
            invariant
                i <= self.content.len(),
                content.len() == i,
                forall|j: int| 0 <= j < i ==> part_text(#[trigger] content@[j]) == part_text(self.content@[j]),
            decreases self.content.len() - i,
        {
            content.push(self.content[i].duplicate());
            i = i + 1;
        }
        let tool_calls = match &self.tool_calls {
            Some(calls) => Some(duplicate_calls(calls)),
            None => None,
        };
        let tool_call_id = match &self.tool_call_id {
            Some(id) => Some(id.clone()),
            None => None,
        };
        Message { role: self.role, content, tool_calls, tool_call_id }
    }
}

/// A copy of a list of messages.
pub fn duplicate_messages(messages: &Vec<Message>) -> (r: Vec<Message>)
    ensures
        same_messages(r@, messages@),
{
    let mut out: Vec<Message> = Vec::new();
    let mut i: usize = 0;
    while i < messages.len()
        invariant
            i <= messages.len(),
            out.len() == i,
            forall|j: int| 0 <= j < i ==> same_message(#[trigger] out@[j], messages@[j]),
        decreases messages.len() - i,
    {
        out.push(messages[i].duplicate());
        i = i + 1;
    }
    out
}

} // verus!
