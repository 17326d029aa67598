//! The command line: the commands and their options.
pub mod build_options;
pub mod dev_options;
pub mod log_level;
pub mod new_options;
pub mod wasm_opt_level;

pub use build_options::BuildOptions;
pub use dev_options::{DevOptions, RunOptions};
pub use log_level::LogLevel;
pub use new_options::{NewOptions, ProjectTemplate, UseExample};
pub use wasm_opt_level::WasmOptimizationLevel;

use vstd::prelude::*;

verus! {

/// The command line: a command and the level of logging.
#[derive(Debug)]
pub struct Cli {
    pub command: Commands,
    pub log_level: LogLevel,
}

/// The commands of the tool.
#[derive(Debug)]
pub enum Commands {
    /// Create a new project.
    New(NewOptions),
    /// Build the application.
    Build(BuildOptions),
    /// Build and run the application.
    Run(RunOptions),
    /// Run the application in watch mode.
    Dev(DevOptions),
}

} // verus!
