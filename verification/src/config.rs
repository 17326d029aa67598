//! The configuration of a build, a run and a watch.
use vstd::prelude::*;
use crate::cli::BuildOptions;
use crate::path::FsPath;

verus! {

/// The configuration of the commands: the build, and for running and
/// watching their own parts when those commands are used.
#[derive(Debug)]
pub struct Config {
    pub build: BuildOptions,
    pub watch: Option<WatchConfig>,
    pub run: Option<RunConfig>,
}

impl Config {
    /// The build configuration.
    pub fn build(&self) -> (r: &BuildOptions)
        ensures
            *r == self.build,
    {
        &self.build
    }

    /// The watch configuration, which must be there.
    pub fn watch(&self) -> (r: &WatchConfig)
        requires
            self.watch is Some,
        ensures
            Some(*r) == self.watch,
    {
        self.watch.as_ref().unwrap()
    }

    /// The run configuration, which must be there.
    pub fn run(&self) -> (r: &RunConfig)
        requires
            self.run is Some,
        ensures
            Some(*r) == self.run,
    {
        self.run.as_ref().unwrap()
    }
}

/// How the application is run.
#[derive(Debug)]
pub struct RunConfig {
    /// The server path where the static files are served.
    pub static_dir: String,
    /// The host to run the server.
    pub host: String,
    /// The port to run the server.
    pub port: u16,
}

/// How changes are watched.
#[derive(Debug)]
pub struct WatchConfig {
    /// The host of the reload server.
    pub reload_host: String,
    /// The port of the reload server.
    pub reload_port: u16,
    /// Additional paths to watch.
    pub watch: Vec<FsPath>,
    /// Paths to ignore while waiting for changes.
    pub ignore: Vec<FsPath>,
}

/// When a command of the build runs.
#[derive(Debug, Clone, Copy, PartialEq, Eq, Structural)]
pub enum Stage {
    PreBuild,
    PostBuild,
}

/// A command run at a stage of the build.
#[derive(Debug)]
pub struct StageCommand {
    pub command: String,
    pub stage: Stage,
    pub args: Vec<String>,
}

} // verus!
