//! The `bash` tool: which commands may run, and how their output is reported.
use vstd::prelude::*;

use crate::entities::tool::{ToolCall, ToolDefinition, ToolError};
use crate::ports::tool_runtime::ToolRuntime;
use crate::prompt::system_prompt::strings_view;
use crate::text::{
    chars_of, contains, contains_chars, decimal, decimal_string, join, join_chars,
    split_whitespace_chars, string_from_chars, trim, trim_chars, words,
};
use crate::tools::args::{arg_str, missing_field_text, required_arg};

verus! {

/// Shell operators that a command may not contain, in the order they are
/// checked.
pub open spec fn forbidden_ops() -> Seq<Seq<char>> {
    seq![";"@, "|"@, "&&"@, "||"@, ">"@, "<"@, "`"@, "$("@]
}

/// The first forbidden operator, in list order from `i`, that `t` contains.
pub open spec fn first_forbidden_from(t: Seq<char>, i: int) -> Option<Seq<char>>
    decreases 8 - i,
{
    if i < 0 || i >= 8 {
        None
    } else if contains(t, forbidden_ops()[i]) {
        Some(forbidden_ops()[i])
    } else {
        first_forbidden_from(t, i + 1)
    }
}

/// What the bash tool decides for a command text: `Ok` with its words when
/// it may run; otherwise the error it reports.
pub open spec fn command_verdict_holds(command: Seq<char>, allowlist: Seq<Seq<char>>, r: Result<Vec<String>, ToolError>) -> bool {
    let t = trim(command);
    match first_forbidden_from(t, 0) {
        Some(op) => r matches Err(ToolError::Unauthorized(m)) && m@ == "shell operator '"@ + op
            + "' is not permitted"@,
        None => if words(t).len() == 0 {
            r matches Err(ToolError::InvalidArguments(m)) && m@ == "empty command"@
        } else if !allowlist.contains(words(t)[0]) {
            r matches Err(ToolError::Unauthorized(m)) && m@ == "command '"@ + words(t)[0]
                + "' is not in the allowlist"@
        } else {
            r matches Ok(parts) && strings_view(parts@) == words(t)
        },
    }
}

fn forbidden_list() -> (r: Vec<Vec<char>>)
    ensures
        r@.map_values(|w: Vec<char>| w@) == forbidden_ops(),
{
    let mut v: Vec<Vec<char>> = Vec::new();
    v.push(chars_of(";"));
    v.push(chars_of("|"));
    v.push(chars_of("&&"));
    v.push(chars_of("||"));
    v.push(chars_of(">"));
    v.push(chars_of("<"));
    v.push(chars_of("`"));
    v.push(chars_of("$("));
    assert(v@.map_values(|w: Vec<char>| w@) =~= forbidden_ops());
    v
}

fn in_allowlist(allowlist: &Vec<String>, word: &Vec<char>) -> (r: bool)
    ensures
        r == strings_view(allowlist@).contains(word@),
{
    let mut i: usize = 0;
    while i < allowlist.len()
        invariant
            i <= allowlist.len(),
            forall|j: int| 0 <= j < i ==> allowlist@[j]@ != word@,
        decreases allowlist.len() - i,
    {
        if crate::text::chars_eq(&chars_of(allowlist[i].as_str()), word) {
            assert(strings_view(allowlist@)[i as int] == word@);
            return true;
        }
        i = i + 1;
    }
    proof {
        if strings_view(allowlist@).contains(word@) {
            let j = choose|j: int| 0 <= j < strings_view(allowlist@).len() && strings_view(allowlist@)[j] == word@;
            assert(allowlist@[j]@ == word@);
        }
    }
    false
}

/// Checks a command against the forbidden operators and the allowlist; the
/// words of the command when it may run.
pub fn check_command(command: &str, allowlist: &Vec<String>) -> (r: Result<Vec<String>, ToolError>)
    ensures
        command_verdict_holds(command@, strings_view(allowlist@), r),
{
    let t = trim_chars(&chars_of(command));
    let ops = forbidden_list();
    let ghost opsv = ops@.map_values(|w: Vec<char>| w@);
    assert(forbidden_ops().len() == 8);
    assert(opsv.len() == ops@.len());
    let mut i: usize = 0;
    while i < 8
        invariant
            i <= 8,
            t@ == trim(command@),
            ops.len() == 8,
            opsv == ops@.map_values(|w: Vec<char>| w@),
            opsv == forbidden_ops(),
            first_forbidden_from(t@, 0) == first_forbidden_from(t@, i as int),
        decreases 8 - i,
    {
        assert(opsv[i as int] == ops@[i as int]@);
        if contains_chars(&t, &ops[i]) {
            let op = string_from_chars(ops[i].as_slice());
            assert(first_forbidden_from(t@, i as int) == Some(forbidden_ops()[i as int]));
            assert(op@ == forbidden_ops()[i as int]);
            assert(t@ == trim(command@));
            return Err(
                ToolError::Unauthorized(
                    String::from_str("shell operator '").concat(op.as_str()).concat("' is not permitted"),
                ),
            );
        }
        i = i + 1;
    }
    let parts = split_whitespace_chars(&t);
    if parts.len() == 0 {
        return Err(ToolError::InvalidArguments(String::from_str("empty command")));
    }
    assert(parts@.map_values(|w: Vec<char>| w@)[0] == parts@[0]@);
    if !in_allowlist(allowlist, &parts[0]) {
        let program = string_from_chars(parts[0].as_slice());
        return Err(
            ToolError::Unauthorized(
                String::from_str("command '").concat(program.as_str()).concat("' is not in the allowlist"),
            ),
        );
    }
    let mut out: Vec<String> = Vec::new();
    let mut k: usize = 0;
    while k < parts.len()
        invariant
            k <= parts.len(),
            out.len() == k,
            forall|j: int| 0 <= j < k ==> (#[trigger] out@[j])@ == parts@[j]@,
        decreases parts.len() - k,
    {
        out.push(string_from_chars(parts[k].as_slice()));
        k = k + 1;
    }
    assert(strings_view(out@) =~= parts@.map_values(|w: Vec<char>| w@));
    Ok(out)
}

/// The decimal text of a signed integer.
pub open spec fn signed_decimal(i: int) -> Seq<char> {
    if i < 0 {
        "-"@ + decimal((-i) as nat)
    } else {
        decimal(i as nat)
    }
}

fn signed_decimal_string(i: i32) -> (r: String)
    ensures
        r@ == signed_decimal(i as int),
{
    if i < 0 {
        let magnitude: u128 = (0i64 - (i as i64)) as u128;
        String::from_str("-").concat(decimal_string(magnitude).as_str())
    } else {
        decimal_string(i as u128)
    }
}

/// What a finished command reports: its output when it succeeded (or a note
/// that there was none); otherwise its exit code (`-1` when it has none) and
/// both output streams.
pub open spec fn command_output_text(success: bool, code: Option<i32>, stdout: Seq<char>, stderr: Seq<char>) -> Seq<char> {
    if success {
        if stdout.len() == 0 {
            "(exit 0, no output)"@
        } else {
            stdout
        }
    } else {
        let c = match code {
            Some(c) => c as int,
            None => -1,
        };
        "(exit "@ + signed_decimal(c) + ")\nstdout: "@ + stdout + "\nstderr: "@ + stderr
    }
}

pub fn command_output(success: bool, code: Option<i32>, stdout: &str, stderr: &str) -> (r: String)
    ensures
        r@ == command_output_text(success, code, stdout@, stderr@),
{
    if success {
        if stdout.is_empty() {
            String::from_str("(exit 0, no output)")
        } else {
            String::from_str(stdout)
        }
    } else {
        let c: i32 = match code {
            Some(c) => c,
            None => -1,
        };
        String::from_str("(exit ").concat(signed_decimal_string(c).as_str()).concat(")\nstdout: ").concat(
            stdout,
        ).concat("\nstderr: ").concat(stderr)
    }
}

/// The bash tool's description for the permitted commands `allowed`.
pub open spec fn bash_description(allowed: Seq<Seq<char>>) -> Seq<char> {
    "Run a shell command in the workspace directory. Only the following commands are permitted: "@ + join(
        allowed,
        ", "@,
    ) + ". Shell operators (pipes, redirects, semicolons) are not allowed. The working directory is always the workspace root."@
}

/// Runs allowlisted commands in the workspace directory.
pub struct BashTool {
    pub workspace_root: String,
    pub allowlist: Vec<String>,
}

impl BashTool {
    pub fn new(workspace_root: &str, allowlist: Vec<String>) -> (r: Self)
        ensures
            r.workspace_root@ == workspace_root@,
            r.allowlist == allowlist,
    {
        BashTool { workspace_root: String::from_str(workspace_root), allowlist }
    }

    /// The tool's description, naming the permitted commands.
    pub fn description(&self) -> (r: String)
        ensures
            r@ == bash_description(strings_view(self.allowlist@)),
    {
        let mut names: Vec<Vec<char>> = Vec::new();
        let mut i: usize = 0;
        while i < self.allowlist.len()
            invariant
                i <= self.allowlist.len(),
                names.len() == i,
                forall|j: int| 0 <= j < i ==> (#[trigger] names@[j])@ == self.allowlist@[j]@,
            decreases self.allowlist.len() - i,
        {
            names.push(chars_of(self.allowlist[i].as_str()));
            i = i + 1;
        }
        assert(names@.map_values(|p: Vec<char>| p@) =~= strings_view(self.allowlist@));
        let allowed = string_from_chars(join_chars(&names, &chars_of(", ")).as_slice());
        String::from_str("Run a shell command in the workspace directory. Only the following commands are permitted: ").concat(
            allowed.as_str(),
        ).concat(
            ". Shell operators (pipes, redirects, semicolons) are not allowed. The working directory is always the workspace root.",
        )
    }

    /// The words of the command a call asks to run, when it may run.
    pub fn command_for(&self, call: &ToolCall) -> (r: Result<Vec<String>, ToolError>)
        ensures
            match arg_str(call.function.arguments@, "command"@) {
                None => r matches Err(ToolError::InvalidArguments(_)),
                Some(None) => r matches Err(ToolError::InvalidArguments(m)) && m@ == missing_field_text(
                    "command"@,
                ),
                Some(Some(c)) => command_verdict_holds(c, strings_view(self.allowlist@), r),
            },
    {
        let command = required_arg(call, "command")?;
        check_command(command.as_str(), &self.allowlist)
    }
}

impl BashTool {
    /// The tool as advertised to the model, with `parameters` as the JSON
    /// Schema of its arguments.
    pub fn definition(&self, parameters: serde_json::Value) -> (r: ToolDefinition)
        ensures
            r.kind@ == "function"@,
            r.function.name@ == self.spec_name(),
            r.function.description@ == bash_description(strings_view(self.allowlist@)),
            r.function.parameters == parameters,
    {
        let description = self.description();
        ToolDefinition::function(self.name(), description.as_str(), parameters)
    }
}

impl ToolRuntime for BashTool {
    open spec fn spec_name(&self) -> Seq<char> {
        "bash"@
    }

    fn name(&self) -> (r: &str) {
        "bash"
    }
}

} // verus!
