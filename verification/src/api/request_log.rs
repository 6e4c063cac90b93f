//! What the request logger records of each HTTP exchange.
use vstd::prelude::*;

use crate::logging::LogLevel;

verus! {

/// ASCII lower case of a character.
pub open spec fn ascii_lower(c: char) -> char {
    if 'A' <= c && c <= 'Z' {
        ((c as u32) + 32) as char
    } else {
        c
    }
}

/// The name, lower-cased, is `authorization` or `cookie`: such headers are
/// never logged. (Header names are ASCII.)
pub open spec fn is_sensitive(name: Seq<char>) -> bool {
    let lower = name.map_values(|c: char| ascii_lower(c));
    lower == "authorization"@ || lower == "cookie"@
}

fn lower_char(c: char) -> (r: char)
    ensures
        r == ascii_lower(c),
{
    if 'A' <= c && c <= 'Z' {
        let code: u32 = (c as u32) + 32;
        let b: u8 = code as u8;
        b as char
    } else {
        c
    }
}

pub fn is_sensitive_header(name: &str) -> (r: bool)
    ensures
        r == is_sensitive(name@),
{
    let chars = chars_of_lower(name);
    let lower = crate::text::string_from_chars(chars.as_slice());
    lower == String::from_str("authorization") || lower == String::from_str("cookie")
}

fn chars_of_lower(name: &str) -> (r: Vec<char>)
    ensures
        r@ == name@.map_values(|c: char| ascii_lower(c)),
{
    let cs = crate::text::chars_of(name);
    let mut out: Vec<char> = Vec::new();
    let mut i: usize = 0;
    while i < cs.len()
        invariant
            i <= cs.len(),
            cs@ == name@,
            out@ == name@.take(i as int).map_values(|c: char| ascii_lower(c)),
        decreases cs.len() - i,
    {
        out.push(lower_char(cs[i]));
        assert(name@.take(i + 1).map_values(|c: char| ascii_lower(c)) =~= name@.take(i as int).map_values(
            |c: char| ascii_lower(c),
        ).push(ascii_lower(name@[i as int])));
        i = i + 1;
    }
    assert(name@.take(cs.len() as int) =~= name@);
    out
}

/// The headers kept in a log: those whose value is text, without the
/// sensitive ones when `redact` is set; in order.
pub open spec fn kept_headers(pairs: Seq<(String, Option<String>)>, redact: bool) -> Seq<(Seq<char>, Seq<char>)>
    decreases pairs.len(),
{
    if pairs.len() == 0 {
        seq![]
    } else {
        let rest = kept_headers(pairs.drop_last(), redact);
        let (n, v) = pairs.last();
        if v is Some && !(redact && is_sensitive(n@)) {
            rest.push((n@, v->0@))
        } else {
            rest
        }
    }
}

/// Selects the headers to log.
pub fn loggable_headers(pairs: &Vec<(String, Option<String>)>, redact: bool) -> (r: Vec<(String, String)>)
    ensures
        r@.map_values(|p: (String, String)| (p.0@, p.1@)) == kept_headers(pairs@, redact),
{
    let mut out: Vec<(String, String)> = Vec::new();
    let mut i: usize = 0;
    while i < pairs.len()
        invariant
            i <= pairs.len(),
            out@.map_values(|p: (String, String)| (p.0@, p.1@)) == kept_headers(pairs@.take(i as int), redact),
        decreases pairs.len() - i,
    {
        assert(pairs@.take(i + 1).drop_last() =~= pairs@.take(i as int));
        assert(pairs@.take(i + 1).last() == pairs@[i as int]);
        let (n, v) = (&pairs[i].0, &pairs[i].1);
        match v {
            Some(val) => {
                if !(redact && is_sensitive_header(n.as_str())) {
                    let ghost before = out@;
                    out.push((n.clone(), val.clone()));
                    assert(out@.map_values(|p: (String, String)| (p.0@, p.1@)) =~= before.map_values(
                        |p: (String, String)| (p.0@, p.1@),
                    ).push((n@, val@)));
                }
            },
            None => {},
        }
        i = i + 1;
    }
    assert(pairs@.take(pairs.len() as int) =~= pairs@);
    out
}

/// The level of a response record: `error` for server errors, `info`
/// otherwise.
pub fn response_level(status: u32) -> (r: LogLevel)
    ensures
        status >= 500 ==> r == LogLevel::Error,
        status < 500 ==> r == LogLevel::Info,
{
    if status >= 500 {
        LogLevel::Error
    } else {
        LogLevel::Info
    }
}

/// The message of a request record: method and URI.
pub fn request_line(method: &str, uri: &str) -> (r: String)
    ensures
        r@ == method@ + " "@ + uri@,
{
    String::from_str(method).concat(" ").concat(uri)
}

/// The message of a response record: method, URI, status and time taken.
pub fn response_line(method: &str, uri: &str, status: u32, elapsed_ms: u32) -> (r: String)
    ensures
        r@ == method@ + " "@ + uri@ + " -> "@ + crate::text::decimal(status as nat) + " ("@
            + crate::text::decimal(elapsed_ms as nat) + "ms)"@,
{
    String::from_str(method).concat(" ").concat(uri).concat(" -> ").concat(
        crate::text::decimal_string(status as u128).as_str(),
    ).concat(" (").concat(crate::text::decimal_string(elapsed_ms as u128).as_str()).concat("ms)")
}

} // verus!
