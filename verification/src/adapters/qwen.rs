use vstd::prelude::*;

use crate::adapters::{build_tool_instructions, standard_tool_instructions};
use crate::ports::model_adapter::{strs_view, ModelAdapter};
use crate::text::{
    chars_of, contains, contains_chars, lacks, lemma_remove_absent, lemma_remove_keeps_other, lemma_remove_leaves_no_lead,
    lemma_trim_lacks, occurs_at, replace_all, replace_all_chars, string_from_chars, trim, trim_chars,
};

verus! {

/// Qwen's cleaning: chat-template tokens removed, then surrounding whitespace.
pub open spec fn qwen_clean(text: Seq<char>) -> Seq<char> {
    trim(replace_all(replace_all(text, "<|im_start|>"@, seq![]), "<|im_end|>"@, seq![]))
}

/// Qwen cleaning removes every chat-template token: when each `<` of the
/// text begins `<|im_start|>` or `<|im_end|>`, the cleaned text has no `<`
/// left, so neither token occurs in it.
pub proof fn lemma_qwen_clean_removes_tokens(text: Seq<char>)
    requires
        forall|i: int|
            0 <= i < text.len() && text[i] == '<' ==> occurs_at(text, "<|im_start|>"@, i) || occurs_at(
                text,
                "<|im_end|>"@,
                i,
            ),
    ensures
        lacks(qwen_clean(text), '<'),
        !contains(qwen_clean(text), "<|im_start|>"@),
        !contains(qwen_clean(text), "<|im_end|>"@),
{
    reveal_strlit("<|im_start|>");
    reveal_strlit("<|im_end|>");
    let start = "<|im_start|>"@;
    let end = "<|im_end|>"@;
    lemma_remove_keeps_other(text, start, end);
    let a = replace_all(text, start, seq![]);
    lemma_remove_leaves_no_lead(a, end);
    let b = replace_all(a, end, seq![]);
    lemma_trim_lacks(b, '<');
    lemma_remove_absent(trim(b), start);
    lemma_remove_absent(trim(b), end);
}

/// A text with no `<` holds no chat-template token: Qwen cleaning only
/// trims it.
pub proof fn lemma_qwen_clean_plain_text(text: Seq<char>)
    requires
        lacks(text, '<'),
    ensures
        qwen_clean(text) == trim(text),
{
    reveal_strlit("<|im_start|>");
    reveal_strlit("<|im_end|>");
    lemma_remove_absent(text, "<|im_start|>"@);
    lemma_remove_absent(text, "<|im_end|>"@);
}

/// Adapter for Qwen / Qwen2.5-coder models served via Ollama.
///
/// Strips `<|im_start|>` / `<|im_end|>` chat-template tokens that leak into
/// user messages when Ollama exposes Qwen's raw chat template output.
pub struct QwenAdapter;

impl ModelAdapter for QwenAdapter {
    open spec fn spec_matches(&self, model: Seq<char>) -> bool {
        contains(model, "qwen"@) || contains(model, "Qwen"@)
    }

    open spec fn spec_clean_content(&self, text: Seq<char>) -> Seq<char> {
        qwen_clean(text)
    }

    open spec fn spec_tool_instructions(&self, workspace_root: Seq<char>, tools: Seq<Seq<char>>) -> Seq<char> {
        standard_tool_instructions(workspace_root, tools)
    }

    fn matches(&self, model: &str) -> (r: bool) {
        let m = chars_of(model);
        contains_chars(&m, &chars_of("qwen")) || contains_chars(&m, &chars_of("Qwen"))
    }

    fn clean_content(&self, text: String) -> (r: String)
        ensures
            r@ == qwen_clean(text@),
    {
        let t = chars_of(text.as_str());
        let start = chars_of("<|im_start|>");
        let end = chars_of("<|im_end|>");
        proof {
            reveal_strlit("<|im_start|>");
            reveal_strlit("<|im_end|>");
        }
        let empty: Vec<char> = Vec::new();
        let a = replace_all_chars(&t, &start, &empty);
        let b = replace_all_chars(&a, &end, &empty);
        assert(empty@ == Seq::<char>::empty());
        let c = trim_chars(&b);
        string_from_chars(c.as_slice())
    }

    fn tool_instructions(&self, workspace_root: &str, tools: &[&str]) -> (r: String) {
        build_tool_instructions(workspace_root, tools)
    }
}

} // verus!
