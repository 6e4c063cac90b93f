pub mod model_adapter;
pub mod context_compressor;
pub mod token_counter;
pub mod llm_backend;
pub mod tool_runtime;
