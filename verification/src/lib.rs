//! Verified core of a local LLM gateway: prompt shaping, context
//! compression, tool-call normalisation and the decisions of the agent loops.
pub mod text;
pub mod entities;
pub mod tools;
pub mod ports;
pub mod adapters;
pub mod prompt;
pub mod compression;
pub mod sharing;
pub mod tool_loop;
pub mod reflection;
pub mod ollama;
pub mod json;
pub mod token_counter;
pub mod api;
pub mod logging;
pub mod config;
pub mod chat;
pub mod sessions;
