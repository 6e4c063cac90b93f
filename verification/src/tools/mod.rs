pub mod glob;
pub mod registry;
pub mod normalizer;
pub mod args;
pub mod paths;
pub mod bash;
pub mod patch_file;
pub mod file_read;
pub mod write_file;
pub mod search;
pub mod find;
pub mod executor;
