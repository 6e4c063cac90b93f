pub mod conversation;
pub mod message;
pub mod model;
pub mod stream_chunk;
pub mod tool;
