use std::sync::Arc;

use nixacp_gateway::entities::message::{Message, Role};
use nixacp_gateway::ports::model_adapter::ModelAdapter;
use nixacp_gateway::prompt::{ModelAdapterRegistry, ModelQuirksTransformer, PromptPipeline, SystemPromptBuilder};

struct PrefixAdapter(&'static str);

impl ModelAdapter for PrefixAdapter {
    fn clean_content(&self, text: String) -> String {
        text
    }

    fn matches(&self, model: &str) -> bool {
        model.starts_with(self.0)
    }

    fn tool_instructions(&self, _root: &str, _tools: &[&str]) -> String {
        format!("adapter={}", self.0)
    }
}

fn registry() -> ModelAdapterRegistry {
    ModelAdapterRegistry::new(vec![
        Arc::new(PrefixAdapter("qwen")),
        Arc::new(PrefixAdapter("deepseek")),
        Arc::new(PrefixAdapter("")), // catches everything — acts as default
    ])
}

#[test]
fn selects_first_match() {
    let r = registry();
    let instr = r.for_model("qwen2.5-coder:14b").tool_instructions("", &[]);
    assert_eq!(instr, "adapter=qwen");
}

#[test]
fn falls_through_to_default() {
    let r = registry();
    let instr = r.for_model("llama3:8b").tool_instructions("", &[]);
    assert_eq!(instr, "adapter=");
}

#[test]
fn deepseek_matched_before_default() {
    let r = registry();
    let instr = r.for_model("deepseek-coder:7b").tool_instructions("", &[]);
    assert_eq!(instr, "adapter=deepseek");
}

struct StripMarkerAdapter;
impl ModelAdapter for StripMarkerAdapter {
    fn matches(&self, _: &str) -> bool {
        true
    }
    fn clean_content(&self, text: String) -> String {
        text.replace("<MARK>", "").trim().to_owned()
    }
    fn tool_instructions(&self, _: &str, _: &[&str]) -> String {
        String::new()
    }
}

fn test_pipeline() -> PromptPipeline {
    let registry = Arc::new(ModelAdapterRegistry::new(vec![Arc::new(StripMarkerAdapter)]));
    PromptPipeline::new(
        SystemPromptBuilder::new(registry.clone(), "/ws", vec![]),
        ModelQuirksTransformer::new(registry),
    )
}

#[test]
fn pipeline_cleans_content_via_adapter() {
    let pipeline = test_pipeline();
    let messages = vec![Message::user("<MARK>hello<MARK>")];
    let out = pipeline.transform("any-model", messages);
    assert_eq!(out[1].text_content().unwrap(), "hello");
}

#[test]
fn pipeline_preserves_system_message_position() {
    let pipeline = test_pipeline();
    let messages = vec![Message::system("be helpful"), Message::user("hi")];
    let out = pipeline.transform("any-model", messages);
    assert_eq!(out[0].role, Role::System);
}

struct StripBracketsAdapter;
impl ModelAdapter for StripBracketsAdapter {
    fn matches(&self, model: &str) -> bool {
        model == "brackets"
    }
    fn clean_content(&self, text: String) -> String {
        text.replace(['[', ']'], "").trim().to_owned()
    }
    fn tool_instructions(&self, _: &str, _: &[&str]) -> String {
        String::new()
    }
}

struct NoopAdapter;
impl ModelAdapter for NoopAdapter {
    fn clean_content(&self, text: String) -> String {
        text
    }

    fn matches(&self, _: &str) -> bool {
        true
    }
    fn tool_instructions(&self, _: &str, _: &[&str]) -> String {
        String::new()
    }
}

fn registry_with_strip() -> Arc<ModelAdapterRegistry> {
    Arc::new(ModelAdapterRegistry::new(vec![Arc::new(StripBracketsAdapter), Arc::new(NoopAdapter)]))
}

#[test]
fn delegates_cleaning_to_adapter() {
    let t = ModelQuirksTransformer::new(registry_with_strip());
    let msgs = vec![Message::user("[hello] world")];
    let out = t.apply("brackets", msgs);
    assert_eq!(out[0].text_content().unwrap(), "hello world");
}

#[test]
fn no_change_for_noop_adapter() {
    let t = ModelQuirksTransformer::new(registry_with_strip());
    let msgs = vec![Message::user("[hello] world")];
    let out = t.apply("other-model", msgs);
    assert_eq!(out[0].text_content().unwrap(), "[hello] world");
}

#[test]
fn applies_to_all_messages() {
    let t = ModelQuirksTransformer::new(registry_with_strip());
    let msgs = vec![Message::user("[first]"), Message::user("[second]")];
    let out = t.apply("brackets", msgs);
    assert_eq!(out[0].text_content().unwrap(), "first");
    assert_eq!(out[1].text_content().unwrap(), "second");
}

struct TaggedAdapter(&'static str);
impl ModelAdapter for TaggedAdapter {
    fn clean_content(&self, text: String) -> String {
        text
    }

    fn matches(&self, model: &str) -> bool {
        model.starts_with(self.0)
    }
    fn tool_instructions(&self, root: &str, tools: &[&str]) -> String {
        format!("[{}] root={} tools={}", self.0, root, tools.join(","))
    }
}

struct CatchAllAdapter;
impl ModelAdapter for CatchAllAdapter {
    fn clean_content(&self, text: String) -> String {
        text
    }

    fn matches(&self, _: &str) -> bool {
        true
    }
    fn tool_instructions(&self, root: &str, tools: &[&str]) -> String {
        format!("[default] root={} tools={}", root, tools.join(","))
    }
}

fn builder() -> SystemPromptBuilder {
    let registry = Arc::new(ModelAdapterRegistry::new(vec![
        Arc::new(TaggedAdapter("qwen")),
        Arc::new(TaggedAdapter("deepseek")),
        Arc::new(CatchAllAdapter),
    ]));
    SystemPromptBuilder::new(registry, "/workspace", vec!["read_file".into(), "search_files".into()])
}

#[test]
fn prepends_when_no_system_message() {
    let b = builder();
    let msgs = vec![Message::user("hello")];
    let out = b.apply("llama3:8b", msgs);
    assert_eq!(out[0].role, Role::System);
    assert_eq!(out[1].role, Role::User);
}

#[test]
fn appends_to_existing_system_message() {
    let b = builder();
    let msgs = vec![Message::system("You are helpful."), Message::user("hi")];
    let out = b.apply("llama3:8b", msgs);
    assert_eq!(out.iter().filter(|m| m.role == Role::System).count(), 1);
    let sys = out[0].text_content().unwrap();
    assert!(sys.contains("You are helpful."));
    assert!(sys.contains("read_file"), "tool names must appear: {sys}");
}

#[test]
fn model_specific_adapter_selected() {
    let b = builder();
    let msgs = vec![Message::user("hi")];
    let out = b.apply("qwen2.5-coder:14b", msgs);
    let sys = out[0].text_content().unwrap();
    assert!(sys.starts_with("[qwen]"), "got: {sys}");
    assert!(sys.contains("/workspace"));
    assert!(sys.contains("read_file"));
}

#[test]
fn fallback_adapter_used_for_unknown_model() {
    let b = builder();
    let msgs = vec![Message::user("hi")];
    let out = b.apply("mistral:7b", msgs);
    let sys = out[0].text_content().unwrap();
    assert!(sys.starts_with("[default]"), "got: {sys}");
}

#[test]
fn tool_names_appear_in_system_prompt() {
    let b = builder();
    let msgs = vec![Message::user("hi")];
    let out = b.apply("deepseek-coder:7b", msgs);
    let sys = out[0].text_content().unwrap();
    assert!(sys.contains("read_file"));
    assert!(sys.contains("search_files"));
}

#[test]
fn system_instructions_appended_after_newline() {
    let b = builder();
    let msgs = vec![Message::system("base"), Message::user("hi")];
    let out = b.apply("qwen-x", msgs);
    assert_eq!(
        out[0].text_content().unwrap(),
        "base\n[qwen] root=/workspace tools=read_file,search_files"
    );
    assert_eq!(out.len(), 2);
}
