//! The Ollama wire format as the library sees it.
pub mod types;
pub mod stream;
pub mod client;
