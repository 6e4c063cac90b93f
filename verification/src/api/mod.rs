//! The HTTP API's data and decisions: OpenAI chat completions, the
//! Responses API, model listing, ACP, and error responses.
pub mod types;
pub mod error;
pub mod chat;
pub mod responses;
pub mod models;
pub mod acp;
pub mod request_log;
