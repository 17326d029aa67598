//! Verified core of the hashira command line tool: option handling, version
//! parsing, tool download planning, path arithmetic and project scaffolding.
pub mod adapters;
pub mod cli;
pub mod config;
pub mod path;
pub mod macros;
pub mod pipelines;
pub mod platform;
pub mod tasks;
pub mod text;
pub mod tools;
pub mod utils;
pub mod version;
