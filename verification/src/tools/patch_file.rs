//! The `patch_file` tool: replace one exact, unique string in a file.
use vstd::prelude::*;

use crate::entities::tool::{ToolCall, ToolDefinition, ToolError};
use crate::ports::tool_runtime::ToolRuntime;
use crate::text::{chars_of, count_matches, find, lemma_find_from_in_range, occurs_at, count_matches_chars, decimal, decimal_string, replace_first, replace_first_chars, string_from_chars};
use crate::tools::args::{arg_str, call_arguments, missing_field_text, required_str};
use crate::json::{json_object_members, str_field};

verus! {

/// What patching `original` gives: the text with the one occurrence of
/// `old_str` replaced, or the error for an `old_str` that is missing or not
/// unique.
pub open spec fn patch_outcome(original: Seq<char>, old_str: Seq<char>, new_str: Seq<char>, path: Seq<char>, r: Result<String, ToolError>) -> bool {
    let n = count_matches(original, old_str);
    if n == 0 {
        r matches Err(ToolError::ExecutionFailed(m)) && m@ == "old_str not found in '"@ + path + "'"@
    } else if n > 1 {
        r matches Err(ToolError::ExecutionFailed(m)) && m@ == "old_str appears "@ + decimal(n) + " times in '"@
            + path + "' \u{2014} must be unique"@
    } else {
        r matches Ok(t) && t@ == replace_first(original, old_str, new_str)
    }
}

/// Replaces the single occurrence of `old_str` in `original`.
pub fn patch_text(original: &str, old_str: &str, new_str: &str, path: &str) -> (r: Result<String, ToolError>)
    ensures
        patch_outcome(original@, old_str@, new_str@, path@, r),
{
    let text = chars_of(original);
    let old = chars_of(old_str);
    let count = count_matches_chars(&text, &old);
    if count == 0 {
        return Err(
            ToolError::ExecutionFailed(
                String::from_str("old_str not found in '").concat(path).concat("'"),
            ),
        );
    }
    if count > 1 {
        return Err(
            ToolError::ExecutionFailed(
                String::from_str("old_str appears ").concat(decimal_string(count).as_str()).concat(
                    " times in '",
                ).concat(path).concat("' \u{2014} must be unique"),
            ),
        );
    }
    let patched = replace_first_chars(&text, &old, &chars_of(new_str));
    Ok(string_from_chars(patched.as_slice()))
}

/// An occurrence of a non-empty pattern is counted.
proof fn lemma_occurrence_counted(s: Seq<char>, pat: Seq<char>, j: int)
    requires
        pat.len() > 0,
        occurs_at(s, pat, j),
    ensures
        count_matches(s, pat) >= 1,
{
    lemma_find_from_in_range(s, pat, 0);
}

/// Two occurrences of a non-empty pattern that do not overlap are both counted.
proof fn lemma_two_occurrences_counted(s: Seq<char>, pat: Seq<char>, i: int, j: int)
    requires
        pat.len() > 0,
        occurs_at(s, pat, i),
        occurs_at(s, pat, j),
        i + pat.len() <= j,
    ensures
        count_matches(s, pat) >= 2,
{
    lemma_find_from_in_range(s, pat, 0);
    let k = find(s, pat)->0;
    assert(k <= i);
    let rest = s.subrange(k + pat.len(), s.len() as int);
    let j2 = j - k - pat.len();
    assert(rest.subrange(j2, j2 + pat.len()) =~= s.subrange(j, j + pat.len()));
    lemma_occurrence_counted(rest, pat, j2);
}

/// A patch succeeds exactly when `old_str` occurs once (occurrences counted
/// without overlap, left to right); two separate occurrences, or none, make
/// it fail. On success the text is the original with its first occurrence
/// of `old_str` replaced by `new_str` and everything else kept.
pub proof fn lemma_patch_needs_unique_match(
    original: Seq<char>,
    old_str: Seq<char>,
    new_str: Seq<char>,
    path: Seq<char>,
    r: Result<String, ToolError>,
)
    requires
        patch_outcome(original, old_str, new_str, path, r),
    ensures
        (r is Ok) <==> count_matches(original, old_str) == 1,
        forall|i: int, j: int|
            #![trigger occurs_at(original, old_str, i), occurs_at(original, old_str, j)]
            old_str.len() > 0 && occurs_at(original, old_str, i) && occurs_at(original, old_str, j) && i
                + old_str.len() <= j ==> r is Err,
        old_str.len() > 0 && (forall|i: int| !#[trigger] occurs_at(original, old_str, i)) ==> r is Err,
        r matches Ok(t) ==> exists|i: int|
            {
                &&& #[trigger] occurs_at(original, old_str, i)
                &&& forall|j: int| 0 <= j < i ==> !#[trigger] occurs_at(original, old_str, j)
                &&& t@ == original.subrange(0, i) + new_str + original.subrange(
                    i + old_str.len(),
                    original.len() as int,
                )
            },
{
    assert forall|i: int, j: int|
        #![trigger occurs_at(original, old_str, i), occurs_at(original, old_str, j)]
        old_str.len() > 0 && occurs_at(original, old_str, i) && occurs_at(original, old_str, j) && i
            + old_str.len() <= j implies r is Err by {
        lemma_two_occurrences_counted(original, old_str, i, j);
    }
    lemma_find_from_in_range(original, old_str, 0);
    if old_str.len() == 0 {
        assert(occurs_at(original, old_str, 0)) by {
            assert(original.subrange(0, 0) =~= old_str);
        }
    }
    if r is Ok {
        let i = find(original, old_str)->0;
        assert(occurs_at(original, old_str, i));
    }
}

/// The arguments of a patch call, checked in order: `path`, `old_str`,
/// `new_str`.
pub open spec fn patch_args_outcome(args: Seq<char>, r: Result<(String, String, String), ToolError>) -> bool {
    match json_object_members(args) {
        None => r matches Err(ToolError::InvalidArguments(_)),
        Some(ms) => match (str_field(ms, "path"@), str_field(ms, "old_str"@), str_field(ms, "new_str"@)) {
            (None, _, _) => r matches Err(ToolError::InvalidArguments(m)) && m@ == missing_field_text("path"@),
            (Some(_), None, _) => r matches Err(ToolError::InvalidArguments(m)) && m@ == missing_field_text(
                "old_str"@,
            ),
            (Some(_), Some(_), None) => r matches Err(ToolError::InvalidArguments(m)) && m@
                == missing_field_text("new_str"@),
            (Some(p), Some(o), Some(n)) => r matches Ok(t) && t.0@ == p && t.1@ == o && t.2@ == n,
        },
    }
}

/// Replaces an exact string in a file inside the workspace.
pub struct PatchFileTool {
    pub workspace_root: String,
}

impl PatchFileTool {
    pub fn new(workspace_root: &str) -> (r: Self)
        ensures
            r.workspace_root@ == workspace_root@,
    {
        PatchFileTool { workspace_root: String::from_str(workspace_root) }
    }

    /// The path, old string and new string a call asks for.
    pub fn arguments(&self, call: &ToolCall) -> (r: Result<(String, String, String), ToolError>)
        ensures
            patch_args_outcome(call.function.arguments@, r),
    {
        let args = call_arguments(call)?;
        let path = required_str(&args, "path")?;
        let old_str = required_str(&args, "old_str")?;
        let new_str = required_str(&args, "new_str")?;
        Ok((path, old_str, new_str))
    }

    /// The report of a successful patch.
    pub fn patched_message(path: &str) -> (r: String)
        ensures
            r@ == "patched '"@ + path@ + "'"@,
    {
        String::from_str("patched '").concat(path).concat("'")
    }
}

impl PatchFileTool {
    /// The tool as advertised to the model, with `parameters` as the JSON
    /// Schema of its arguments.
    pub fn definition(&self, parameters: serde_json::Value) -> (r: ToolDefinition)
        ensures
            r.kind@ == "function"@,
            r.function.name@ == self.spec_name(),
            r.function.description@ == "Replace an exact string in a file with new content. Fails if old_str is not found or appears more than once."@,
            r.function.parameters == parameters,
    {
        ToolDefinition::function(self.name(), "Replace an exact string in a file with new content. Fails if old_str is not found or appears more than once.", parameters)
    }
}

impl ToolRuntime for PatchFileTool {
    open spec fn spec_name(&self) -> Seq<char> {
        "patch_file"@
    }

    fn name(&self) -> (r: &str) {
        "patch_file"
    }
}

} // verus!
