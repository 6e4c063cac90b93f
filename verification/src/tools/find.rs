//! The `find` and `list_dir` tools.
use vstd::prelude::*;

use crate::entities::tool::{ToolCall, ToolDefinition, ToolError};
use crate::json::{json_object_members, str_field, str_member, u64_field, u64_member};
use crate::ports::tool_runtime::ToolRuntime;
use crate::prompt::system_prompt::strings_view;
use crate::text::{chars_of, join, join_chars, lex_sorted, sort_texts, string_from_chars};
use crate::tools::args::{arg_str, call_arguments, missing_field_text, optional_arg, required_str};

verus! {

/// The message for a search path that does not exist.
pub open spec fn missing_path_text(path: Seq<char>) -> Seq<char> {
    "path '"@ + path + "' does not exist"@
}

pub fn missing_path(path: &str) -> (r: ToolError)
    ensures
        r matches ToolError::NotFound(m) && m@ == missing_path_text(path@),
{
    ToolError::NotFound(String::from_str("path '").concat(path).concat("' does not exist"))
}

/// The search reads a directory `depth` levels below its start only while
/// `depth` is within `max_depth`; deeper directories are not listed.
pub fn walks_into(depth: usize, max_depth: usize) -> (r: bool)
    ensures
        r == (depth <= max_depth),
{
    depth <= max_depth
}

/// Finds files and directories whose names match a glob pattern.
pub struct FindTool {
    pub workspace_root: String,
}

/// The arguments of a find call: the required `pattern`, the `path` (`.` by
/// default) and the `max_depth` (10 by default).
pub open spec fn find_args_outcome(args: Seq<char>, r: Result<(String, String, usize), ToolError>) -> bool {
    match json_object_members(args) {
        None => r matches Err(ToolError::InvalidArguments(_)),
        Some(ms) => match str_field(ms, "pattern"@) {
            None => r matches Err(ToolError::InvalidArguments(m)) && m@ == missing_field_text("pattern"@),
            Some(p) => r matches Ok(t) && t.0@ == p && t.1@ == match str_field(ms, "path"@) {
                Some(s) => s,
                None => "."@,
            } && t.2 == match u64_field(ms, "max_depth"@) {
                Some(d) => d as usize,
                None => 10usize,
            },
        },
    }
}

/// What a find reports: the matches one per line, or `(no matches)`.
pub open spec fn matches_report(matches: Seq<Seq<char>>) -> Seq<char> {
    if matches.len() == 0 {
        "(no matches)"@
    } else {
        join(matches, "\n"@)
    }
}

fn strings_to_chars(v: &Vec<String>) -> (r: Vec<Vec<char>>)
    ensures
        r@.map_values(|p: Vec<char>| p@) == strings_view(v@),
{
    let mut out: Vec<Vec<char>> = Vec::new();
    let mut i: usize = 0;
    while i < v.len()
        invariant
            i <= v.len(),
            out.len() == i,
            forall|j: int| 0 <= j < i ==> (#[trigger] out@[j])@ == v@[j]@,
        decreases v.len() - i,
    {
        out.push(chars_of(v[i].as_str()));
        i = i + 1;
    }
    assert(out@.map_values(|p: Vec<char>| p@) =~= strings_view(v@));
    out
}

impl FindTool {
    pub fn new(workspace_root: &str) -> (r: Self)
        ensures
            r.workspace_root@ == workspace_root@,
    {
        FindTool { workspace_root: String::from_str(workspace_root) }
    }

    /// The pattern, sub-path and depth limit a call asks for.
    pub fn arguments(&self, call: &ToolCall) -> (r: Result<(String, String, usize), ToolError>)
        ensures
            find_args_outcome(call.function.arguments@, r),
    {
        let args = call_arguments(call)?;
        let pattern = required_str(&args, "pattern")?;
        let path = match str_member(&args, "path") {
            Some(p) => p,
            None => String::from_str("."),
        };
        let depth: usize = match u64_member(&args, "max_depth") {
            Some(d) => d as usize,
            None => 10,
        };
        Ok((pattern, path, depth))
    }

    /// The report of a find: the matches one per line, or `(no matches)`.
    pub fn report(matches: &Vec<String>) -> (r: String)
        ensures
            r@ == matches_report(strings_view(matches@)),
    {
        if matches.len() == 0 {
            return String::from_str("(no matches)");
        }
        let parts = strings_to_chars(matches);
        string_from_chars(join_chars(&parts, &chars_of("\n")).as_slice())
    }
}

impl FindTool {
    /// The tool as advertised to the model, with `parameters` as the JSON
    /// Schema of its arguments.
    pub fn definition(&self, parameters: serde_json::Value) -> (r: ToolDefinition)
        ensures
            r.kind@ == "function"@,
            r.function.name@ == self.spec_name(),
            r.function.description@ == "Recursively find files or directories matching a glob pattern inside the workspace."@,
            r.function.parameters == parameters,
    {
        ToolDefinition::function(self.name(), "Recursively find files or directories matching a glob pattern inside the workspace.", parameters)
    }
}

impl ToolRuntime for FindTool {
    open spec fn spec_name(&self) -> Seq<char> {
        "find_files"@
    }

    fn name(&self) -> (r: &str) {
        "find_files"
    }
}

/// Lists the immediate contents of a workspace directory.
pub struct ListTool {
    pub workspace_root: String,
}

/// One line of a listing: a marker for directories and files, then the name.
pub open spec fn entry_line(name: Seq<char>, is_dir: bool) -> Seq<char> {
    (if is_dir {
        "[dir] "@
    } else {
        "[file]"@
    }) + " "@ + name
}

/// A listing: the entry lines in sorted order, one per line, or
/// `(empty directory)`.
pub open spec fn listing_holds(entries: Seq<(String, bool)>, r: Seq<char>) -> bool {
    if entries.len() == 0 {
        r == "(empty directory)"@
    } else {
        exists|lines: Seq<Seq<char>>|
            #![trigger join(lines, "\n"@)]
            lex_sorted(lines) && lines.to_multiset() == entries.map_values(
                |e: (String, bool)| entry_line(e.0@, e.1),
            ).to_multiset() && r == join(lines, "\n"@)
    }
}

impl ListTool {
    pub fn new(workspace_root: &str) -> (r: Self)
        ensures
            r.workspace_root@ == workspace_root@,
    {
        ListTool { workspace_root: String::from_str(workspace_root) }
    }

    /// The directory a call asks to list (`.` by default).
    pub fn path_argument(&self, call: &ToolCall) -> (r: Result<String, ToolError>)
        ensures
            match arg_str(call.function.arguments@, "path"@) {
                None => r matches Err(ToolError::InvalidArguments(_)),
                Some(None) => r matches Ok(t) && t@ == "."@,
                Some(Some(p)) => r matches Ok(t) && t@ == p,
            },
    {
        optional_arg(call, "path", ".")
    }

    /// The error for a path that is a file.
    pub fn not_a_directory(path: &str) -> (r: ToolError)
        ensures
            r matches ToolError::InvalidArguments(m) && m@ == "'"@ + path@
                + "' is a file, not a directory \u{2014} use file_read to read it"@,
    {
        ToolError::InvalidArguments(
            String::from_str("'").concat(path).concat(
                "' is a file, not a directory \u{2014} use file_read to read it",
            ),
        )
    }

    /// The listing of a directory's entries, each a name and whether it is a
    /// directory.
    pub fn listing(entries: Vec<(String, bool)>) -> (r: String)
        ensures
            listing_holds(entries@, r@),
    {
        if entries.len() == 0 {
            return String::from_str("(empty directory)");
        }
        let mut lines: Vec<Vec<char>> = Vec::new();
        let mut i: usize = 0;
        while i < entries.len()
            invariant
                i <= entries.len(),
                lines.len() == i,
                forall|j: int|
                    0 <= j < i ==> (#[trigger] lines@[j])@ == entry_line(entries@[j].0@, entries@[j].1),
            decreases entries.len() - i,
        {
            let marker = if entries[i].1 {
                "[dir] "
            } else {
                "[file]"
            };
            let line = String::from_str(marker).concat(" ").concat(entries[i].0.as_str());
            lines.push(chars_of(line.as_str()));
            i = i + 1;
        }
        let ghost lv = lines@.map_values(|v: Vec<char>| v@);
        assert(lv =~= entries@.map_values(|e: (String, bool)| entry_line(e.0@, e.1)));
        let sorted = sort_texts(lines);
        let ghost sv = sorted@.map_values(|v: Vec<char>| v@);
        let out = join_chars(&sorted, &chars_of("\n"));
        let r = string_from_chars(out.as_slice());
        assert(lex_sorted(sv) && sv.to_multiset() == lv.to_multiset() && r@ == join(sv, "\n"@));
        r
    }
}

impl ListTool {
    /// The tool as advertised to the model, with `parameters` as the JSON
    /// Schema of its arguments.
    pub fn definition(&self, parameters: serde_json::Value) -> (r: ToolDefinition)
        ensures
            r.kind@ == "function"@,
            r.function.name@ == self.spec_name(),
            r.function.description@ == "List the immediate contents of a directory in the workspace. Shows files and sub-directories."@,
            r.function.parameters == parameters,
    {
        ToolDefinition::function(self.name(), "List the immediate contents of a directory in the workspace. Shows files and sub-directories.", parameters)
    }
}

impl ToolRuntime for ListTool {
    open spec fn spec_name(&self) -> Seq<char> {
        "list_directory"@
    }

    fn name(&self) -> (r: &str) {
        "list_directory"
    }
}

} // verus!
