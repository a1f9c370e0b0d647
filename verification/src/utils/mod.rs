//! Utilities: the manifest, TOML values, file hashes and external commands.
pub mod exec;
pub mod hash;
pub mod toml_parser;
pub mod toml_value;
