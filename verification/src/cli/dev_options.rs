//! The options of the `run` and `dev` commands.
use vstd::prelude::*;
use crate::cli::build_options::{resolves_target_dir, same_build_options, BuildOptions};
use crate::path::{copy_paths, opt_view, paths_view, FsPath};

verus! {

/// The options of the `dev` command: a build, a server and a reload server.
#[derive(Debug)]
pub struct DevOptions {
    pub build_opts: BuildOptions,
    /// The server path where the static files are served.
    pub static_dir: String,
    /// The host to run the application.
    pub host: String,
    /// The port to run the application.
    pub port: u16,
    /// The host to run the hot reload server.
    pub reload_host: String,
    /// The port to run the hot reload server.
    pub reload_port: u16,
    /// Paths to ignore when looking for changes.
    pub ignore: Vec<FsPath>,
}

/// The options of the `run` command: a build and a server.
#[derive(Debug)]
pub struct RunOptions {
    pub build_opts: BuildOptions,
    /// The server path where the static files are served.
    pub static_dir: String,
    /// The host to run the application.
    pub host: String,
    /// The port to run the application.
    pub port: u16,
}

impl DevOptions {
    /// A copy of these options.
    pub fn duplicate(&self) -> (r: DevOptions)
        ensures
            same_build_options(r.build_opts, self.build_opts),
            r.static_dir@ == self.static_dir@,
            r.host@ == self.host@,
            r.port == self.port,
            r.reload_host@ == self.reload_host@,
            r.reload_port == self.reload_port,
            paths_view(r.ignore@) == paths_view(self.ignore@),
    {
        DevOptions {
            build_opts: self.build_opts.duplicate(),
            static_dir: self.static_dir.clone(),
            host: self.host.clone(),
            port: self.port,
            reload_host: self.reload_host.clone(),
            reload_port: self.reload_port,
            ignore: copy_paths(&self.ignore),
        }
    }
}

impl RunOptions {
    /// The options of running what `dev` runs: its build and server options.
    pub fn from_dev(dev_opts: &DevOptions) -> (r: RunOptions)
        ensures
            same_build_options(r.build_opts, dev_opts.build_opts),
            r.static_dir@ == dev_opts.static_dir@,
            r.host@ == dev_opts.host@,
            r.port == dev_opts.port,
    {
        RunOptions {
            build_opts: dev_opts.build_opts.duplicate(),
            static_dir: dev_opts.static_dir.clone(),
            host: dev_opts.host.clone(),
            port: dev_opts.port,
        }
    }

    /// The target directory of the build: the one given, else the one
    /// `detect` finds, as `BuildOptions::resolved_target_dir` chooses it.
    pub fn resolved_target_dir<F: FnOnce() -> Result<FsPath, String>>(&self, detect: F) -> (r:
        Result<FsPath, String>)
        requires
            self.build_opts.target_dir is None ==> detect.requires(()),
        ensures
            resolves_target_dir(opt_view(self.build_opts.target_dir), detect, r),
    {
        self.build_opts.resolved_target_dir(detect)
    }
}

impl BuildOptions {
    /// The build options of the `dev` command.
    pub fn from_dev(dev_opts: &DevOptions) -> (r: BuildOptions)
        ensures
            same_build_options(r, dev_opts.build_opts),
    {
        dev_opts.build_opts.duplicate()
    }

    /// The build options of the `run` command.
    pub fn from_run(run_opts: &RunOptions) -> (r: BuildOptions)
        ensures
            same_build_options(r, run_opts.build_opts),
    {
        run_opts.build_opts.duplicate()
    }
}

} // verus!
