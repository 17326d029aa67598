//! The options of the `build` command, shared by `run` and `dev`.
use vstd::prelude::*;
use crate::cli::wasm_opt_level::WasmOptimizationLevel;
use crate::path::{copy_opt_path, copy_paths, opt_view, paths_view, FsPath, PathView};

verus! {

/// Whether `r` is the target directory chosen from the one given, if any:
/// that one when given, else a result of `detect`.
pub open spec fn resolves_target_dir<F: FnOnce() -> Result<FsPath, String>>(
    given: Option<PathView>,
    detect: F,
    r: Result<FsPath, String>,
) -> bool {
    match given {
        Some(p) => r matches Ok(q) && q@ == p,
        None => detect.ensures((), r),
    }
}

/// The options of a build.
#[derive(Debug)]
pub struct BuildOptions {
    /// Base directory for the artifacts.
    pub target_dir: Option<FsPath>,
    /// Directory relative to the `target_dir` where the static files are served from.
    pub public_dir: FsPath,
    /// Build artifacts in release mode, with optimizations.
    pub release: bool,
    /// Files and directories to copy in the `public_dir`.
    pub includes: Vec<FsPath>,
    /// Allow to take in files outside the current directory.
    pub allow_include_external: bool,
    /// Allow to take in files inside the `src/` directory.
    pub allow_include_src: bool,
    /// Do not show the output of the commands.
    pub quiet: bool,
    /// Optimization level for the WebAssembly.
    pub opt_level: Option<WasmOptimizationLevel>,
    /// Path to the stylesheet entry file.
    pub styles: Option<FsPath>,
}

/// The directories and files copied into the public directory when none
/// are given.
pub open spec fn spec_default_includes() -> Seq<Seq<char>> {
    seq!["public/"@, "favicon.ico"@]
}

/// The directories and files copied into the public directory when none
/// are given.
pub fn default_includes() -> (r: Vec<&'static str>)
    ensures
        r@.map_values(|a: &str| a@) == spec_default_includes(),
{
    let r = vec!["public/", "favicon.ico"];
    assert(r@.map_values(|a: &str| a@) =~= spec_default_includes());
    r
}

/// The directory of the artifacts of one profile: `release` or `debug`
/// inside the target directory.
pub open spec fn spec_profile_dir(dir: PathView, release: bool) -> PathView {
    PathView {
        absolute: dir.absolute,
        parts: dir.parts.push(if release { "release"@ } else { "debug"@ }),
    }
}

/// Whether two build options hold the same values.
pub open spec fn same_build_options(a: BuildOptions, b: BuildOptions) -> bool {
    &&& opt_view(a.target_dir) == opt_view(b.target_dir)
    &&& a.public_dir@ == b.public_dir@
    &&& a.release == b.release
    &&& paths_view(a.includes@) == paths_view(b.includes@)
    &&& a.allow_include_external == b.allow_include_external
    &&& a.allow_include_src == b.allow_include_src
    &&& a.quiet == b.quiet
    &&& a.opt_level == b.opt_level
    &&& opt_view(a.styles) == opt_view(b.styles)
}

impl BuildOptions {
    /// A copy of these options.
    pub fn duplicate(&self) -> (r: BuildOptions)
        ensures
            same_build_options(r, *self),
    {
        BuildOptions {
            target_dir: copy_opt_path(&self.target_dir),
            public_dir: self.public_dir.duplicate(),
            release: self.release,
            includes: copy_paths(&self.includes),
            allow_include_external: self.allow_include_external,
            allow_include_src: self.allow_include_src,
            quiet: self.quiet,
            opt_level: self.opt_level,
            styles: copy_opt_path(&self.styles),
        }
    }

    /// The target directory: the one given, else the one `detect` finds,
    /// which is only asked when none is given.
    pub fn resolved_target_dir<F: FnOnce() -> Result<FsPath, String>>(&self, detect: F) -> (r:
        Result<FsPath, String>)
        requires
            self.target_dir is None ==> detect.requires(()),
        ensures
            resolves_target_dir(opt_view(self.target_dir), detect, r),
    {
        match &self.target_dir {
            Some(path) => Ok(path.duplicate()),
            None => detect(),
        }
    }

    /// The directory of the artifacts of the profile built: `release` or
    /// `debug` inside the target directory.
    pub fn profile_target_dir<F: FnOnce() -> Result<FsPath, String>>(&self, detect: F) -> (r:
        Result<FsPath, String>)
        requires
            self.target_dir is None ==> detect.requires(()),
        ensures
            match self.target_dir {
                Some(p) => r matches Ok(q) && q@ == spec_profile_dir(p@, self.release),
                None => exists|d: Result<FsPath, String>|
                    #![trigger detect.ensures((), d)]
                    detect.ensures((), d) && match d {
                        Ok(t) => r matches Ok(q) && q@ == spec_profile_dir(t@, self.release),
                        Err(m) => r matches Err(n) && n@ == m@,
                    },
            },
    {
        let dir = match self.resolved_target_dir(detect) {
            Ok(d) => d,
            Err(m) => {
                return Err(m);
            },
        };
        proof {
            reveal_strlit("release");
            reveal_strlit("debug");
            assert("release"@ =~= seq!['r', 'e', 'l', 'e', 'a', 's', 'e']);
            assert("debug"@ =~= seq!['d', 'e', 'b', 'u', 'g']);
        }
        if self.release {
            Ok(dir.join_name("release"))
        } else {
            Ok(dir.join_name("debug"))
        }
    }
}

} // verus!
