use std::sync::Arc;

use nixacp_gateway::entities::tool::{ToolCall, ToolError, ToolResult};
use nixacp_gateway::ports::tool_runtime::ToolRuntime;
use nixacp_gateway::tools::bash::{check_command, command_output, BashTool};
use nixacp_gateway::tools::executor::dispatch_outcome;
use nixacp_gateway::tools::file_read::ReadFileTool;
use nixacp_gateway::tools::find::{FindTool, ListTool};
use nixacp_gateway::tools::glob::glob_matches;
use nixacp_gateway::tools::patch_file::{patch_text, PatchFileTool};
use nixacp_gateway::tools::paths::{confine, is_within_root, join_path, relative_path};
use nixacp_gateway::tools::registry::ToolRegistry;
use nixacp_gateway::tools::search::SearchTool;
use nixacp_gateway::tools::write_file::WriteFileTool;

#[test]
fn glob_star_matches_any() {
    assert!(glob_matches("*.rs", "main.rs"));
    assert!(glob_matches("*.rs", "lib.rs"));
    assert!(!glob_matches("*.rs", "main.py"));
}

#[test]
fn glob_question_matches_one_char() {
    assert!(glob_matches("?.rs", "a.rs"));
    assert!(!glob_matches("?.rs", "ab.rs"));
}

#[test]
fn glob_exact_match() {
    assert!(glob_matches("main.rs", "main.rs"));
    assert!(!glob_matches("main.rs", "main.py"));
}

#[test]
fn glob_star_only_matches_everything() {
    assert!(glob_matches("*", "anything"));
    assert!(glob_matches("*", ""));
}

struct ConstTool {
    name: &'static str,
}

impl ToolRuntime for ConstTool {
    fn name(&self) -> &str {
        self.name
    }
}

fn registry_with_echo() -> ToolRegistry<dyn ToolRuntime> {
    let mut reg: ToolRegistry<dyn ToolRuntime> = ToolRegistry::new();
    reg.register(Arc::new(ConstTool { name: "echo" }));
    reg
}

#[test]
fn get_returns_none_for_unknown_name() {
    let reg: ToolRegistry<dyn ToolRuntime> = ToolRegistry::new();
    assert!(reg.get("nonexistent").is_none());
}

#[test]
fn get_returns_some_for_registered_name() {
    let reg = registry_with_echo();
    assert!(reg.get("echo").is_some());
}

#[test]
fn later_registration_replaces_earlier() {
    let mut reg: ToolRegistry<dyn ToolRuntime> = ToolRegistry::new();
    let first: Arc<dyn ToolRuntime> = Arc::new(ConstTool { name: "tool" });
    let second: Arc<dyn ToolRuntime> = Arc::new(ConstTool { name: "tool" });
    reg.register(first.clone());
    reg.register(second.clone());
    let got = reg.get("tool").unwrap();
    assert!(Arc::ptr_eq(&got, &second));
    assert!(!Arc::ptr_eq(&got, &first));
}

#[test]
fn resolve_unknown_tool_is_not_found() {
    let reg: ToolRegistry<dyn ToolRuntime> = ToolRegistry::new();
    let call = ToolCall::new("call_x", "missing_tool", "{}");
    match reg.resolve(&call) {
        Err(ToolError::NotFound(n)) => assert_eq!(n, "missing_tool"),
        _ => panic!("expected NotFound"),
    }
}

#[test]
fn timeout_error_display() {
    let e = ToolError::Timeout;
    assert_eq!(e.to_string(), "timeout");
}

#[test]
fn dispatch_outcomes() {
    let call = ToolCall::new("cx", "failing", "{}");
    let ok = ToolResult::ok("cx".into(), "done".into());
    assert_eq!(dispatch_outcome(&call, Some(Ok(ok.clone()))), ok);
    let failed = dispatch_outcome(&call, Some(Err(ToolError::ExecutionFailed("intentional".into()))));
    assert_eq!(failed.tool_call_id, "cx");
    assert!(failed.content.contains("intentional"));
    let timed_out = dispatch_outcome(&call, None);
    assert_eq!(timed_out.content, "timeout");
    assert!(timed_out.is_error);
}

fn allow(names: &[&str]) -> Vec<String> {
    names.iter().map(|s| s.to_string()).collect()
}

#[test]
fn bash_allows_listed_command() {
    let parts = check_command("  echo hello  world ", &allow(&["echo"])).unwrap();
    assert_eq!(parts, vec!["echo", "hello", "world"]);
}

#[test]
fn bash_rejects_forbidden_operator_first() {
    match check_command("rm -rf / ; echo", &allow(&["echo"])) {
        Err(ToolError::Unauthorized(m)) => assert_eq!(m, "shell operator ';' is not permitted"),
        other => panic!("unexpected: {other:?}"),
    }
    match check_command("echo $(whoami)", &allow(&["echo"])) {
        Err(ToolError::Unauthorized(m)) => assert_eq!(m, "shell operator '$(' is not permitted"),
        other => panic!("unexpected: {other:?}"),
    }
    match check_command("ls || true", &allow(&["ls"])) {
        Err(ToolError::Unauthorized(m)) => assert_eq!(m, "shell operator '|' is not permitted"),
        other => panic!("unexpected: {other:?}"),
    }
}

#[test]
fn bash_rejects_unlisted_and_empty() {
    match check_command("rm file", &allow(&["echo"])) {
        Err(ToolError::Unauthorized(m)) => assert_eq!(m, "command 'rm' is not in the allowlist"),
        other => panic!("unexpected: {other:?}"),
    }
    match check_command("   ", &allow(&["echo"])) {
        Err(ToolError::InvalidArguments(m)) => assert_eq!(m, "empty command"),
        other => panic!("unexpected: {other:?}"),
    }
}

#[test]
fn bash_reads_command_argument() {
    let tool = BashTool::new("/ws", allow(&["cargo", "git"]));
    assert_eq!(tool.name(), "bash");
    let call = ToolCall::new("b1", "bash", r#"{"command":"git status"}"#);
    assert_eq!(tool.command_for(&call).unwrap(), vec!["git", "status"]);
    let missing = ToolCall::new("b2", "bash", r#"{}"#);
    match tool.command_for(&missing) {
        Err(ToolError::InvalidArguments(m)) => assert_eq!(m, "missing 'command' field"),
        other => panic!("unexpected: {other:?}"),
    }
    let bad = ToolCall::new("b3", "bash", "not json");
    assert!(matches!(tool.command_for(&bad), Err(ToolError::InvalidArguments(_))));
}

#[test]
fn bash_description_lists_allowlist() {
    let tool = BashTool::new("/ws", allow(&["cargo", "git"]));
    let d = tool.description();
    assert!(d.contains("Only the following commands are permitted: cargo, git."), "{d}");
}

#[test]
fn bash_output_formats() {
    assert_eq!(command_output(true, Some(0), "", ""), "(exit 0, no output)");
    assert_eq!(command_output(true, Some(0), "hi\n", ""), "hi\n");
    assert_eq!(command_output(false, Some(2), "o", "e"), "(exit 2)\nstdout: o\nstderr: e");
    assert_eq!(command_output(false, None, "", "boom"), "(exit -1)\nstdout: \nstderr: boom");
}

#[test]
fn patch_replaces_unique_match() {
    assert_eq!(patch_text("fn a() {}\nfn b() {}", "fn b", "fn c", "x.rs").unwrap(), "fn a() {}\nfn c() {}");
}

#[test]
fn patch_rejects_missing_and_repeated() {
    match patch_text("abc", "zzz", "y", "x.rs") {
        Err(ToolError::ExecutionFailed(m)) => assert_eq!(m, "old_str not found in 'x.rs'"),
        other => panic!("unexpected: {other:?}"),
    }
    match patch_text("a a a", "a", "b", "x.rs") {
        Err(ToolError::ExecutionFailed(m)) => {
            assert_eq!(m, "old_str appears 3 times in 'x.rs' \u{2014} must be unique")
        }
        other => panic!("unexpected: {other:?}"),
    }
}

#[test]
fn patch_arguments_checked_in_order() {
    let tool = PatchFileTool::new("/ws");
    let call = ToolCall::new("p", "patch_file", r#"{"path":"a","old_str":"b"}"#);
    match tool.arguments(&call) {
        Err(ToolError::InvalidArguments(m)) => assert_eq!(m, "missing 'new_str' field"),
        other => panic!("unexpected: {other:?}"),
    }
    assert_eq!(PatchFileTool::patched_message("src/a.rs"), "patched 'src/a.rs'");
}

#[test]
fn paths_stay_in_root() {
    assert!(is_within_root("/ws", "/ws"));
    assert!(is_within_root("/ws/a/b", "/ws"));
    assert!(!is_within_root("/wsx/a", "/ws"));
    assert!(!is_within_root("/etc/passwd", "/ws"));
    assert!(is_within_root("/a", "/"));
    match confine("/etc", "/ws", "../etc") {
        Err(ToolError::Unauthorized(m)) => assert_eq!(m, "path '../etc' is outside workspace root"),
        other => panic!("unexpected: {other:?}"),
    }
    assert!(confine("/ws/src", "/ws", "src").is_ok());
}

#[test]
fn paths_join_and_strip() {
    assert_eq!(join_path("/ws", "src"), "/ws/src");
    assert_eq!(join_path("/ws/", "src"), "/ws/src");
    assert_eq!(join_path("/ws", "/abs"), "/abs");
    assert_eq!(relative_path("/ws/src/main.rs", "/ws"), "src/main.rs");
    assert_eq!(relative_path("/other/x", "/ws"), "/other/x");
    assert_eq!(relative_path("/ws", "/ws"), "");
}

#[test]
fn listing_is_sorted_and_marked() {
    let out = ListTool::listing(vec![("src".into(), true), ("Cargo.toml".into(), false), ("README.md".into(), false)]);
    assert_eq!(out, "[dir]  src\n[file] Cargo.toml\n[file] README.md");
    assert_eq!(ListTool::listing(vec![]), "(empty directory)");
}

#[test]
fn list_path_defaults_to_dot() {
    let tool = ListTool::new("/ws");
    assert_eq!(tool.name(), "list_directory");
    assert_eq!(tool.path_argument(&ToolCall::new("l", "list_dir", "{}")).unwrap(), ".");
    assert_eq!(tool.path_argument(&ToolCall::new("l", "list_dir", r#"{"path":"src"}"#)).unwrap(), "src");
}

#[test]
fn find_arguments_and_report() {
    let tool = FindTool::new("/ws");
    let (pattern, path, depth) = tool
        .arguments(&ToolCall::new("f", "find", r#"{"pattern":"*.rs","max_depth":2}"#))
        .unwrap();
    assert_eq!((pattern.as_str(), path.as_str(), depth), ("*.rs", ".", 2));
    let (_, _, depth) = tool.arguments(&ToolCall::new("f", "find", r#"{"pattern":"*"}"#)).unwrap();
    assert_eq!(depth, 10);
    assert_eq!(FindTool::report(&vec![]), "(no matches)");
    assert_eq!(FindTool::report(&vec!["a.rs".into(), "src/b.rs".into()]), "a.rs\nsrc/b.rs");
}

#[test]
fn search_arguments_and_result() {
    let tool = SearchTool::new("/ws", "rg");
    let (q, p) = tool.arguments(&ToolCall::new("s", "search", r#"{"query":"fn main","path":"sub"}"#)).unwrap();
    assert_eq!(q, "fn main");
    assert_eq!(tool.search_dir(&p), "/ws/sub");
    assert_eq!(tool.search_dir(&None), "/ws");
    let args = SearchTool::rg_args("fn main", "/ws/sub");
    assert_eq!(args, vec!["--line-number", "--no-heading", "--color=never", "--max-count=50", "fn main", "/ws/sub"]);
    match SearchTool::search_result(Some(2), "", "bad regex") {
        Err(ToolError::ExecutionFailed(m)) => assert_eq!(m, "rg error: bad regex"),
        other => panic!("unexpected: {other:?}"),
    }
    assert_eq!(SearchTool::search_result(Some(1), "", "").unwrap(), "");
    match tool.arguments(&ToolCall::new("cb", "search", "{}")) {
        Err(ToolError::InvalidArguments(_)) => {}
        other => panic!("unexpected: {other:?}"),
    }
}

#[test]
fn write_message_counts_bytes() {
    assert_eq!(WriteFileTool::written_message("héllo", "a.txt"), "wrote 6 bytes to a.txt");
    let tool = WriteFileTool::new("/ws");
    let (p, c) = tool.arguments(&ToolCall::new("w", "write_file", r#"{"path":"a","content":"b"}"#)).unwrap();
    assert_eq!((p.as_str(), c.as_str()), ("a", "b"));
}

#[test]
fn definitions_advertise_each_tool_under_its_name() {
    let params = serde_json::Value::Object(serde_json::Map::new());
    let read = ReadFileTool::new("/w").definition(params.clone());
    assert_eq!(read.kind, "function");
    assert_eq!(read.function.name, "read_file");
    assert_eq!(read.function.description, "Read the contents of a file inside the workspace. Use relative paths.");
    assert_eq!(read.function.parameters, params);
    let write = WriteFileTool::new("/w").definition(params.clone());
    assert_eq!(write.function.name, "write_file");
    assert_eq!(write.function.description, "Create or overwrite a file inside the workspace with the given content.");
    let patch = PatchFileTool::new("/w").definition(params.clone());
    assert_eq!(patch.function.name, "patch_file");
    let search = SearchTool::new("/w", "rg").definition(params.clone());
    assert_eq!(search.function.name, "search_files");
    let find = FindTool::new("/w").definition(params.clone());
    assert_eq!(find.function.name, "find_files");
    let list = ListTool::new("/w").definition(params.clone());
    assert_eq!(list.function.name, "list_directory");
    let bash = BashTool::new("/w", vec!["cargo".to_owned(), "git".to_owned()]).definition(params);
    assert_eq!(bash.function.name, "bash");
    assert_eq!(
        bash.function.description,
        "Run a shell command in the workspace directory. Only the following commands are permitted: cargo, git. \
         Shell operators (pipes, redirects, semicolons) are not allowed. The working directory is always the workspace root."
    );
}
