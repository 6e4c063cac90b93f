//! JSON documents, read by `serde_json` into plain values.
use vstd::prelude::*;

verus! {

/// A member of a JSON object, as the library reads it.
pub enum JsonMember {
    /// A JSON string.
    Text(String),
    /// A JSON number that is a non-negative integer fitting 64 bits.
    Unsigned(u64),
    /// Any other JSON value, carried as it is.
    Other(serde_json::Value),
}

/// The text `serde_json::to_string` writes for a JSON value; a function of
/// the value alone.
pub uninterp spec fn json_written(v: serde_json::Value) -> Seq<char>;

/// What the library reads of a member: its text when it is a string, its
/// value when it is an unsigned integer, and for any other value the text
/// serde_json writes for it.
pub open spec fn member_view(m: JsonMember) -> (Option<Seq<char>>, Option<u64>, Option<Seq<char>>) {
    match m {
        JsonMember::Text(s) => (Some(s@), None, None),
        JsonMember::Unsigned(u) => (None, Some(u), None),
        JsonMember::Other(v) => (None, None, Some(json_written(v))),
    }
}

pub open spec fn members_view(ms: Seq<(String, JsonMember)>) -> Seq<(Seq<char>, (Option<Seq<char>>, Option<u64>, Option<Seq<char>>))> {
    ms.map_values(|m: (String, JsonMember)| (m.0@, member_view(m.1)))
}

/// What `serde_json::from_str::<Value>` reads from `text`: `None` when it is
/// not JSON; otherwise the value, and the members of the top-level object
/// (none when the document is not an object), each with its key and what
/// `member_view` reads of it.
pub uninterp spec fn json_document(text: Seq<char>) -> Option<
    (serde_json::Value, Seq<(Seq<char>, (Option<Seq<char>>, Option<u64>, Option<Seq<char>>))>),
>;

/// The JSON value `text` holds, if it is JSON.
pub open spec fn json_value(text: Seq<char>) -> Option<serde_json::Value> {
    match json_document(text) {
        Some(d) => Some(d.0),
        None => None,
    }
}

/// The members of the top-level object of `text`, if it is JSON.
pub open spec fn json_object_members(text: Seq<char>) -> Option<
    Seq<(Seq<char>, (Option<Seq<char>>, Option<u64>, Option<Seq<char>>))>,
> {
    match json_document(text) {
        Some(d) => Some(d.1),
        None => None,
    }
}

/// A parsed JSON document: the value itself, to carry on, and the members
/// of its top-level object, to read.
pub struct ParsedJson {
    pub value: serde_json::Value,
    pub members: Vec<(String, JsonMember)>,
}

/// Parses `text` as JSON (`serde_json::from_str::<Value>`) and lists the
/// members of the top-level object; a document that is not an object has
/// none. The error is serde_json's message, of which nothing is stated.
#[verifier::external_body]
pub fn parse_json(text: &str) -> (r: Result<ParsedJson, String>)
    ensures
        match r {
            Ok(p) => json_document(text@) == Some((p.value, members_view(p.members@))),
            Err(_) => json_document(text@) is None,
        },
{
    let value: serde_json::Value = serde_json::from_str(text).map_err(|e| e.to_string())?;
    let mut members = Vec::new();
    if let serde_json::Value::Object(map) = &value {
        for (key, member) in map {
            let m = match member {
                serde_json::Value::String(s) => JsonMember::Text(s.clone()),
                serde_json::Value::Number(n) if n.is_u64() => JsonMember::Unsigned(n.as_u64().unwrap_or(0)),
                other => JsonMember::Other(other.clone()),
            };
            members.push((key.clone(), m));
        }
    }
    Ok(ParsedJson { value, members })
}

/// An empty JSON object (`Value::Object` of an empty map), which serde_json
/// writes as `{}`.
#[verifier::external_body]
pub fn empty_json_object() -> (r: serde_json::Value)
    ensures
        json_written(r) == "{}"@,
{
    serde_json::Value::Object(serde_json::Map::new())
}

/// Writes a JSON value as compact text (`serde_json::to_string`). Writing a
/// `Value` cannot fail: serde_json fails only when a `Serialize` impl does
/// or a map key is not a string, and neither happens for a `Value`.
#[verifier::external_body]
pub fn json_to_string(v: &serde_json::Value) -> (r: Result<String, String>)
    ensures
        match r {
            Ok(t) => t@ == json_written(*v),
            Err(_) => false,
        },
{
    serde_json::to_string(v).map_err(|e| e.to_string())
}

/// The first member named `key`.
pub open spec fn member_named(ms: Seq<(Seq<char>, (Option<Seq<char>>, Option<u64>, Option<Seq<char>>))>, key: Seq<char>) -> Option<
    (Option<Seq<char>>, Option<u64>, Option<Seq<char>>),
>
    decreases ms.len(),
{
    if ms.len() == 0 {
        None
    } else if ms[0].0 == key {
        Some(ms[0].1)
    } else {
        member_named(ms.drop_first(), key)
    }
}

/// The text of the member `key` when it is a string (`v[key].as_str()`).
pub open spec fn str_field(ms: Seq<(Seq<char>, (Option<Seq<char>>, Option<u64>, Option<Seq<char>>))>, key: Seq<char>) -> Option<Seq<char>> {
    match member_named(ms, key) {
        Some((t, _, _)) => t,
        None => None,
    }
}

/// The value of the member `key` when it is an unsigned integer
/// (`v[key].as_u64()`).
pub open spec fn u64_field(ms: Seq<(Seq<char>, (Option<Seq<char>>, Option<u64>, Option<Seq<char>>))>, key: Seq<char>) -> Option<u64> {
    match member_named(ms, key) {
        Some((_, u, _)) => u,
        None => None,
    }
}

/// The position of the first member named `key`.
pub fn find_member(ms: &Vec<(String, JsonMember)>, key: &str) -> (r: Option<usize>)
    ensures
        match r {
            Some(i) => i < ms.len() && member_named(members_view(ms@), key@) == Some(
                member_view(ms@[i as int].1),
            ),
            None => member_named(members_view(ms@), key@) is None,
        },
{
    let ghost all = members_view(ms@);
    let k = String::from_str(key);
    let mut i: usize = 0;
    assert(all.skip(0) =~= all);
    while i < ms.len()
        invariant
            i <= ms.len(),
            k@ == key@,
            all == members_view(ms@),
            member_named(all, key@) == member_named(all.skip(i as int), key@),
        decreases ms.len() - i,
    {
        let ghost rest = all.skip(i as int);
        assert(rest[0] == all[i as int]);
        if ms[i].0 == k {
            return Some(i);
        }
        assert(rest.drop_first() =~= all.skip(i + 1));
        i = i + 1;
    }
    assert(all.skip(i as int) =~= Seq::<(Seq<char>, (Option<Seq<char>>, Option<u64>, Option<Seq<char>>))>::empty());
    None
}

/// The text of the member `key` when it is a string.
pub fn str_member(ms: &Vec<(String, JsonMember)>, key: &str) -> (r: Option<String>)
    ensures
        match r {
            Some(s) => str_field(members_view(ms@), key@) == Some(s@),
            None => str_field(members_view(ms@), key@) is None,
        },
{
    match find_member(ms, key) {
        Some(i) => match &ms[i].1 {
            JsonMember::Text(s) => Some(s.clone()),
            _ => None,
        },
        None => None,
    }
}

/// The value of the member `key` when it is an unsigned integer.
pub fn u64_member(ms: &Vec<(String, JsonMember)>, key: &str) -> (r: Option<u64>)
    ensures
        r == u64_field(members_view(ms@), key@),
{
    match find_member(ms, key) {
        Some(i) => match &ms[i].1 {
            JsonMember::Unsigned(u) => Some(*u),
            _ => None,
        },
        None => None,
    }
}

} // verus!
