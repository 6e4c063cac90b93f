use nixacp_gateway::adapters::{DeepSeekAdapter, DefaultAdapter, QwenAdapter};
use nixacp_gateway::ports::model_adapter::ModelAdapter;

struct EchoAdapter;

impl ModelAdapter for EchoAdapter {
    fn clean_content(&self, text: String) -> String {
        text
    }

    fn matches(&self, model: &str) -> bool {
        model == "echo"
    }

    fn tool_instructions(&self, root: &str, tools: &[&str]) -> String {
        format!("root={root} tools={}", tools.join(","))
    }
}

#[test]
fn default_clean_content_is_identity() {
    let a = EchoAdapter;
    assert_eq!(a.clean_content("hello".to_owned()), "hello");
}

#[test]
fn default_tool_max_tokens_is_4096() {
    let a = EchoAdapter;
    assert_eq!(a.tool_max_tokens(), 4096);
}

#[test]
fn tool_instructions_receives_args() {
    let a = EchoAdapter;
    let instr = a.tool_instructions("/workspace", &["read_file", "search_files"]);
    assert!(instr.contains("/workspace"));
    assert!(instr.contains("read_file"));
}

#[test]
fn matches_deepseek_variants() {
    let a = DeepSeekAdapter;
    assert!(a.matches("deepseek-coder:7b"));
    assert!(a.matches("DeepSeek-R1:14b"));
    assert!(a.matches("deepseek-r1-distill-qwen"));
    assert!(!a.matches("qwen2.5-coder:14b"));
    assert!(!a.matches("llama3:8b"));
}

#[test]
fn strips_think_tags() {
    let a = DeepSeekAdapter;
    let input = "<think>internal reasoning</think>final answer".to_owned();
    let out = a.clean_content(input);
    assert!(!out.contains("<think>"));
    assert!(!out.contains("internal reasoning"));
    assert_eq!(out, "final answer");
}

#[test]
fn unclosed_think_tag_drops_tail() {
    let a = DeepSeekAdapter;
    let out = a.clean_content("before<think>unclosed".to_owned());
    assert_eq!(out, "before");
}

#[test]
fn multiple_think_blocks_stripped() {
    let a = DeepSeekAdapter;
    let input = "<think>a</think>mid<think>b</think>end".to_owned();
    let out = a.clean_content(input);
    assert_eq!(out, "midend");
}

#[test]
fn deepseek_tool_instructions_contains_tool_names() {
    let a = DeepSeekAdapter;
    let instr = a.tool_instructions("/ws", &["read_file", "search_files"]);
    assert!(instr.contains("/ws"));
    assert!(instr.contains("read_file"));
}

#[test]
fn matches_any_model() {
    let a = DefaultAdapter;
    assert!(a.matches("llama3:8b"));
    assert!(a.matches("mistral:7b"));
    assert!(a.matches("phi3:mini"));
    assert!(a.matches(""));
}

#[test]
fn clean_content_is_identity() {
    let a = DefaultAdapter;
    assert_eq!(a.clean_content("hello".to_owned()), "hello");
    assert_eq!(a.clean_content("<|im_start|>".to_owned()), "<|im_start|>");
}

#[test]
fn tool_instructions_contains_workspace_and_tools() {
    let a = DefaultAdapter;
    let instr = a.tool_instructions("/home/user/proj", &["read_file", "list_directory"]);
    assert!(instr.contains("/home/user/proj"));
    assert!(instr.contains("read_file"));
    assert!(instr.contains("list_directory"));
}

#[test]
fn matches_qwen_variants() {
    let a = QwenAdapter;
    assert!(a.matches("qwen2.5-coder:14b"));
    assert!(a.matches("Qwen2-7B"));
    assert!(a.matches("qwen25-chat-local:latest"));
    assert!(!a.matches("deepseek-coder:7b"));
    assert!(!a.matches("llama3:8b"));
}

#[test]
fn strips_im_tokens() {
    let a = QwenAdapter;
    let input = "<|im_start|>user\nhello world<|im_end|>".to_owned();
    let out = a.clean_content(input);
    assert!(!out.contains("<|im_start|>"));
    assert!(!out.contains("<|im_end|>"));
    assert!(out.contains("hello world"));
}

#[test]
fn clean_content_trims_whitespace() {
    let a = QwenAdapter;
    let out = a.clean_content("  hello  ".to_owned());
    assert_eq!(out, "hello");
}

#[test]
fn qwen_tool_instructions_contains_tool_names() {
    let a = QwenAdapter;
    let instr = a.tool_instructions("/proj", &["read_file", "write_file"]);
    assert!(instr.contains("/proj"));
    assert!(instr.contains("read_file"));
    assert!(instr.contains("write_file"));
}

#[test]
fn qwen_cleaning_exact_result() {
    let a = QwenAdapter;
    let out = a.clean_content("<|im_start|>assistant\n  ok <|im_end|>\n".to_owned());
    assert_eq!(out, "assistant\n  ok");
}
