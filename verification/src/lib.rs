pub mod cli;
pub mod config;
pub mod errors;
pub mod materialize;
pub mod prompts;
pub mod registry;
