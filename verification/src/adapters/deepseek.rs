use vstd::prelude::*;

use crate::adapters::{build_tool_instructions, standard_tool_instructions};
use crate::ports::model_adapter::{strs_view, ModelAdapter};
use crate::text::{
    chars_of, contains, contains_chars, extend_chars, find, find_chars_from, find_from,
    lemma_find_from_in_range, string_from_chars, trim, trim_chars,
};

verus! {

/// `s` with every `<think>…</think>` block removed; an unclosed `<think>`
/// drops everything after it.
pub open spec fn strip_think(s: Seq<char>) -> Seq<char>
    decreases s.len(),
{
    proof {
        lemma_find_from_in_range(s, "<think>"@, 0);
    }
    match find(s, "<think>"@) {
        None => s,
        Some(i) => {
            let rest = s.subrange(i, s.len() as int);
            proof {
                lemma_find_from_in_range(rest, "</think>"@, 0);
                reveal_strlit("</think>");
            }
            s.subrange(0, i) + match find(rest, "</think>"@) {
                None => seq![],
                Some(e) => strip_think(rest.subrange(e + 8, rest.len() as int)),
            }
        },
    }
}

/// DeepSeek's cleaning: reasoning blocks removed, then surrounding whitespace.
pub open spec fn deepseek_clean(text: Seq<char>) -> Seq<char> {
    trim(strip_think(text))
}

/// Removes `<think>…</think>` reasoning traces.
pub fn strip_think_tags(text: String) -> (r: String)
    ensures
        r@ == strip_think(text@),
{
    let s = chars_of(text.as_str());
    let open = chars_of("<think>");
    let close = chars_of("</think>");
    proof {
        reveal_strlit("<think>");
        reveal_strlit("</think>");
    }
    let mut out: Vec<char> = Vec::new();
    let mut k: usize = 0;
    assert(s@.subrange(0, s.len() as int) =~= s@);
    loop
        invariant
            k <= s.len(),
            s@ == text@,
            open@ == "<think>"@,
            open@.len() == 7,
            close@ == "</think>"@,
            close@.len() == 8,
            out@ + strip_think(s@.subrange(k as int, s.len() as int)) == strip_think(s@),
        decreases s.len() - k,
    {
        let ghost rest = s@.subrange(k as int, s.len() as int);
        proof {
            crate::text::lemma_find_shift_pub(s@, open@, k as int);
            lemma_find_from_in_range(s@, open@, k as int);
        }
        match find_chars_from(&s, &open, k) {
            None => {
                extend_chars(&mut out, &s, k, s.len());
                return string_from_chars(out.as_slice());
            },
            Some(start) => {
                extend_chars(&mut out, &s, k, start);
                proof {
                    lemma_find_from_in_range(s@, close@, start as int);
                    crate::text::lemma_find_shift_pub(s@, close@, start as int);
                    let j = start - k;
                    assert(rest.subrange(0, j) =~= s@.subrange(k as int, start as int));
                    assert(rest.subrange(j, rest.len() as int) =~= s@.subrange(
                        start as int,
                        s.len() as int,
                    ));
                }
                match find_chars_from(&s, &close, start) {
                    None => {
                        assert(out@ =~= out@ + Seq::<char>::empty());
                                return string_from_chars(out.as_slice());
                    },
                    Some(e) => {
                        proof {
                            let srest = s@.subrange(start as int, s.len() as int);
                            assert(srest.subrange(e - start + 8, srest.len() as int) =~= s@.subrange(
                                e + 8,
                                s.len() as int,
                            ));
                        }
                        k = e + 8;
                    },
                }
            },
        }
    }
}

/// Adapter for DeepSeek / DeepSeek-Coder / DeepSeek-R1 models.
///
/// Strips `<think>…</think>` reasoning traces that DeepSeek-R1 leaks into
/// the assistant turn, which corrupt conversation history if forwarded verbatim.
pub struct DeepSeekAdapter;

impl ModelAdapter for DeepSeekAdapter {
    open spec fn spec_matches(&self, model: Seq<char>) -> bool {
        contains(model, "deepseek"@) || contains(model, "DeepSeek"@)
    }

    open spec fn spec_clean_content(&self, text: Seq<char>) -> Seq<char> {
        deepseek_clean(text)
    }

    open spec fn spec_tool_instructions(&self, workspace_root: Seq<char>, tools: Seq<Seq<char>>) -> Seq<char> {
        standard_tool_instructions(workspace_root, tools)
    }

    fn matches(&self, model: &str) -> (r: bool) {
        let m = chars_of(model);
        contains_chars(&m, &chars_of("deepseek")) || contains_chars(&m, &chars_of("DeepSeek"))
    }

    fn clean_content(&self, text: String) -> (r: String)
        ensures
            r@ == deepseek_clean(text@),
    {
        let stripped = strip_think_tags(text);
        let v = chars_of(stripped.as_str());
        let t = trim_chars(&v);
        string_from_chars(t.as_slice())
    }

    fn tool_instructions(&self, workspace_root: &str, tools: &[&str]) -> (r: String) {
        build_tool_instructions(workspace_root, tools)
    }
}

} // verus!
