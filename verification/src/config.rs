//! The gateway's configuration and its defaults.
use vstd::prelude::*;

use crate::prompt::system_prompt::strings_view;

verus! {

pub struct ServerConfig {
    pub host: String,
    pub port: u16,
}

/// A model offered by the Ollama server.
pub struct OllamaModelConfig {
    pub name: String,
    pub display_name: Option<String>,
    pub max_tokens: Option<u32>,
}

pub struct OllamaConfig {
    pub url: String,
    pub default_model: String,
    pub max_concurrent: usize,
    pub models: Vec<OllamaModelConfig>,
}

/// How log records are written.
#[derive(Debug, Clone, Copy, PartialEq, Eq, Structural)]
pub enum LogFormat {
    Json,
    Pretty,
}

pub struct LogConfig {
    pub format: LogFormat,
    pub level: String,
    pub app_id: Option<String>,
    pub app_version: Option<String>,
}

/// The log level used when none is configured.
pub fn default_log_level() -> (r: String)
    ensures
        r@ == "info"@,
{
    String::from_str("info")
}

impl Default for LogConfig {
    fn default() -> (r: Self)
        ensures
            r.format == LogFormat::Json,
            r.level@ == "info"@,
            r.app_id is None,
            r.app_version is None,
    {
        LogConfig { format: LogFormat::Json, level: default_log_level(), app_id: None, app_version: None }
    }
}

/// The commands the bash tool may run when none are configured.
pub open spec fn default_allowlist() -> Seq<Seq<char>> {
    seq!["cargo"@, "rustc"@, "npm"@, "node"@, "python"@, "python3"@, "pip"@, "git"@]
}

pub fn default_bash_allowlist() -> (r: Vec<String>)
    ensures
        strings_view(r@) == default_allowlist(),
{
    let mut v: Vec<String> = Vec::new();
    v.push(String::from_str("cargo"));
    v.push(String::from_str("rustc"));
    v.push(String::from_str("npm"));
    v.push(String::from_str("node"));
    v.push(String::from_str("python"));
    v.push(String::from_str("python3"));
    v.push(String::from_str("pip"));
    v.push(String::from_str("git"));
    assert(strings_view(v@) =~= default_allowlist());
    v
}

pub struct BashConfig {
    pub enabled: bool,
    pub allowlist: Vec<String>,
}

impl Default for BashConfig {
    fn default() -> (r: Self)
        ensures
            !r.enabled,
            strings_view(r.allowlist@) == default_allowlist(),
    {
        BashConfig { enabled: false, allowlist: default_bash_allowlist() }
    }
}

pub struct ToolsConfig {
    pub bash: BashConfig,
}

impl Default for ToolsConfig {
    fn default() -> (r: Self)
        ensures
            !r.bash.enabled,
            strings_view(r.bash.allowlist@) == default_allowlist(),
    {
        ToolsConfig { bash: BashConfig::default() }
    }
}

pub struct Config {
    pub server: ServerConfig,
    pub ollama: OllamaConfig,
    pub log: LogConfig,
    pub workspace_root: String,
    pub tools: ToolsConfig,
}

/// Who the logs say they come from.
pub struct LogContext {
    pub app_id: Option<String>,
    pub app_version: Option<String>,
}

impl LogContext {
    /// The log context of a log configuration.
    pub fn from_config(log: &LogConfig) -> (r: Self)
        ensures
            match log.app_id {
                Some(a) => r.app_id matches Some(b) && b@ == a@,
                None => r.app_id is None,
            },
            match log.app_version {
                Some(a) => r.app_version matches Some(b) && b@ == a@,
                None => r.app_version is None,
            },
    {
        LogContext {
            app_id: match &log.app_id {
                Some(a) => Some(a.clone()),
                None => None,
            },
            app_version: match &log.app_version {
                Some(a) => Some(a.clone()),
                None => None,
            },
        }
    }
}

impl Default for LogContext {
    fn default() -> (r: Self)
        ensures
            r.app_id is None,
            r.app_version is None,
    {
        LogContext { app_id: None, app_version: None }
    }
}

} // verus!
