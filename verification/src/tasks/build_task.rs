//! Building the application: the commands that build the server and the
//! client, where their outputs go, and which files join the public
//! directory.
use vstd::prelude::*;
use crate::cli::build_options::{spec_default_includes, spec_profile_dir, BuildOptions};
use crate::cli::wasm_opt_level::WasmOptimizationLevel;
use crate::path::{
    copy_paths, lemma_concat_no_sep, name_stem, opt_view, paths_view, spec_file_name,
    spec_join, spec_strip_prefix, valid_component, wf_path, FsPath, PathView,
};
use crate::pipelines::{Pipeline, PipelineFile};
use crate::tools::{arg_views, text_arg, ArgView, CommandArg};
use crate::text::str_eq;

verus! {

/// The task of the `build` command.
#[derive(Debug)]
pub struct BuildTask {
    /// The options of the build.
    pub options: BuildOptions,
}

impl BuildTask {
    /// The task for the given options.
    pub fn new(options: BuildOptions) -> (r: BuildTask)
        ensures
            r.options == options,
    {
        BuildTask { options }
    }
}

/// The arguments of `cargo` that build the server: `build`, `--quiet` when
/// quiet, the target directory, and `--release` for a release build.
pub open spec fn spec_cargo_build_args(quiet: bool, target_dir: PathView, release: bool) -> Seq<
    ArgView,
> {
    seq![ArgView::Text("build"@)] + (if quiet {
        seq![ArgView::Text("--quiet"@)]
    } else {
        Seq::empty()
    }) + seq![ArgView::Text("--target-dir"@), ArgView::Path(target_dir)] + (if release {
        seq![ArgView::Text("--release"@)]
    } else {
        Seq::empty()
    })
}

/// The arguments of `cargo` that build the client for WebAssembly.
pub open spec fn spec_cargo_build_wasm_args(quiet: bool, target_dir: PathView, release: bool) -> Seq<
    ArgView,
> {
    seq![
        ArgView::Text("build"@),
        ArgView::Text("--target"@),
        ArgView::Text("wasm32-unknown-unknown"@),
    ] + (if quiet {
        seq![ArgView::Text("--quiet"@)]
    } else {
        Seq::empty()
    }) + seq![ArgView::Text("--target-dir"@), ArgView::Path(target_dir)] + (if release {
        seq![ArgView::Text("--release"@)]
    } else {
        Seq::empty()
    })
}

/// Adds the flags common to both builds.
fn push_build_flags(args: &mut Vec<CommandArg>, quiet: bool, target_dir: &FsPath, release: bool)
    ensures
        arg_views(final(args)@) == arg_views(old(args)@) + (if quiet {
            seq![ArgView::Text("--quiet"@)]
        } else {
            Seq::empty()
        }) + seq![ArgView::Text("--target-dir"@), ArgView::Path(target_dir@)] + (if release {
            seq![ArgView::Text("--release"@)]
        } else {
            Seq::empty()
        }),
{
    let ghost start = arg_views(args@);
    if quiet {
        args.push(text_arg("--quiet"));
    }
    let ghost a = arg_views(args@);
    assert(a =~= start + if quiet {
        seq![ArgView::Text("--quiet"@)]
    } else {
        Seq::<ArgView>::empty()
    });
    args.push(text_arg("--target-dir"));
    args.push(CommandArg::Path(target_dir.duplicate()));
    let ghost b = arg_views(args@);
    assert(b =~= a + seq![ArgView::Text("--target-dir"@), ArgView::Path(target_dir@)]);
    if release {
        args.push(text_arg("--release"));
    }
    assert(arg_views(args@) =~= b + if release {
        seq![ArgView::Text("--release"@)]
    } else {
        Seq::<ArgView>::empty()
    });
}

/// The arguments of `cargo` that build the server.
pub fn cargo_build_args(opts: &BuildOptions, target_dir: &FsPath) -> (r: Vec<CommandArg>)
    ensures
        arg_views(r@) == spec_cargo_build_args(opts.quiet, target_dir@, opts.release),
{
    let mut args = vec![text_arg("build")];
    assert(arg_views(args@) =~= seq![ArgView::Text("build"@)]);
    push_build_flags(&mut args, opts.quiet, target_dir, opts.release);
    args
}

/// The arguments of `cargo` that build the client for WebAssembly.
pub fn cargo_build_wasm_args(opts: &BuildOptions, target_dir: &FsPath) -> (r: Vec<CommandArg>)
    ensures
        arg_views(r@) == spec_cargo_build_wasm_args(opts.quiet, target_dir@, opts.release),
{
    let mut args = vec![text_arg("build"), text_arg("--target"), text_arg("wasm32-unknown-unknown")];
    assert(arg_views(args@) =~= seq![
        ArgView::Text("build"@),
        ArgView::Text("--target"@),
        ArgView::Text("wasm32-unknown-unknown"@),
    ]);
    push_build_flags(&mut args, opts.quiet, target_dir, opts.release);
    args
}

/// The directory the static files are served from: the public directory
/// inside the profile directory.
pub open spec fn spec_public_dir(target_dir: PathView, release: bool, public_dir: PathView) -> PathView {
    spec_join(spec_profile_dir(target_dir, release), public_dir)
}

/// The directory the static files are served from, in the target directory.
pub fn public_dir_in(opts: &BuildOptions, target_dir: &FsPath) -> (r: FsPath)
    ensures
        r@ == spec_public_dir(target_dir@, opts.release, opts.public_dir@),
{
    proof {
        reveal_strlit("release");
        reveal_strlit("debug");
        assert("release"@ =~= seq!['r', 'e', 'l', 'e', 'a', 's', 'e']);
        assert("debug"@ =~= seq!['d', 'e', 'b', 'u', 'g']);
    }
    let profile = if opts.release {
        target_dir.join_name("release")
    } else {
        target_dir.join_name("debug")
    };
    profile.join(&opts.public_dir)
}

/// The WebAssembly the client build makes:
/// `{target}/wasm32-unknown-unknown/{profile}/{lib}.wasm`.
pub open spec fn spec_wasm_file(target_dir: PathView, release: bool, lib_name: Seq<char>) -> PathView {
    PathView {
        absolute: target_dir.absolute,
        parts: target_dir.parts + seq![
            "wasm32-unknown-unknown"@,
            if release {
                "release"@
            } else {
                "debug"@
            },
            lib_name + ".wasm"@,
        ],
    }
}

/// The WebAssembly the client build makes.
pub fn wasm_file(opts: &BuildOptions, target_dir: &FsPath, lib_name: &str) -> (r: FsPath)
    requires
        valid_component(lib_name@),
    ensures
        r@ == spec_wasm_file(target_dir@, opts.release, lib_name@),
{
    proof {
        reveal_strlit("release");
        reveal_strlit("debug");
        reveal_strlit("wasm32-unknown-unknown");
        reveal_strlit(".wasm");
        assert("release"@ =~= seq!['r', 'e', 'l', 'e', 'a', 's', 'e']);
        assert("debug"@ =~= seq!['d', 'e', 'b', 'u', 'g']);
        assert(".wasm"@ =~= seq!['.', 'w', 'a', 's', 'm']);
        assert("wasm32-unknown-unknown"@ =~= seq![
            'w', 'a', 's', 'm', '3', '2', '-', 'u', 'n', 'k', 'n', 'o', 'w', 'n', '-', 'u', 'n',
            'k', 'n', 'o', 'w', 'n',
        ]);
        lemma_concat_no_sep(lib_name@, ".wasm"@);
    }
    let arch = target_dir.join_name("wasm32-unknown-unknown");
    let profile = if opts.release {
        arch.join_name("release")
    } else {
        arch.join_name("debug")
    };
    let mut file = String::from_str(lib_name);
    file.append(".wasm");
    let r = profile.join_name(file.as_str());
    assert(r@.parts =~= target_dir@.parts + seq![
        "wasm32-unknown-unknown"@,
        if opts.release {
            "release"@
        } else {
            "debug"@
        },
        lib_name@ + ".wasm"@,
    ]);
    r
}

/// The arguments of wasm-bindgen that bind the client:
/// `--target web --no-typescript --out-dir {out} {wasm}`.
pub fn wasm_bindgen_args(out_dir: &FsPath, wasm: &FsPath) -> (r: Vec<CommandArg>)
    ensures
        arg_views(r@) == seq![
            ArgView::Text("--target"@),
            ArgView::Text("web"@),
            ArgView::Text("--no-typescript"@),
            ArgView::Text("--out-dir"@),
            ArgView::Path(out_dir@),
            ArgView::Path(wasm@),
        ],
{
    let r = vec![
        text_arg("--target"),
        text_arg("web"),
        text_arg("--no-typescript"),
        text_arg("--out-dir"),
        CommandArg::Path(out_dir.duplicate()),
        CommandArg::Path(wasm.duplicate()),
    ];
    assert(arg_views(r@) =~= seq![
        ArgView::Text("--target"@),
        ArgView::Text("web"@),
        ArgView::Text("--no-typescript"@),
        ArgView::Text("--out-dir"@),
        ArgView::Path(out_dir@),
        ArgView::Path(wasm@),
    ]);
    r
}

/// The optimization of the WebAssembly: the level asked for; a release
/// build without one gets the highest level.
pub fn effective_opt_level(opts: &BuildOptions) -> (r: Option<WasmOptimizationLevel>)
    ensures
        r == if opts.release && opts.opt_level is None {
            Some(WasmOptimizationLevel::Level4)
        } else {
            opts.opt_level
        },
{
    if opts.release && opts.opt_level.is_none() {
        Some(WasmOptimizationLevel::Level4)
    } else {
        opts.opt_level
    }
}

/// The bound WebAssembly that is optimized, `{lib}_bg.wasm`, and the file
/// the optimizer writes, `{lib}_bg_opt.wasm`, both in the public directory.
pub fn optimized_wasm_files(public_dir: &FsPath, lib_name: &str) -> (r: (FsPath, FsPath))
    requires
        valid_component(lib_name@),
    ensures
        r.0@ == (PathView {
            absolute: public_dir@.absolute,
            parts: public_dir@.parts.push(lib_name@ + "_bg.wasm"@),
        }),
        r.1@ == (PathView {
            absolute: public_dir@.absolute,
            parts: public_dir@.parts.push(lib_name@ + "_bg_opt.wasm"@),
        }),
{
    proof {
        reveal_strlit("_bg.wasm");
        reveal_strlit("_bg_opt.wasm");
        assert("_bg.wasm"@ =~= seq!['_', 'b', 'g', '.', 'w', 'a', 's', 'm']);
        assert("_bg_opt.wasm"@ =~= seq!['_', 'b', 'g', '_', 'o', 'p', 't', '.', 'w', 'a', 's', 'm']);
        lemma_concat_no_sep(lib_name@, "_bg.wasm"@);
        lemma_concat_no_sep(lib_name@, "_bg_opt.wasm"@);
    }
    let mut input = String::from_str(lib_name);
    input.append("_bg.wasm");
    let mut output = String::from_str(lib_name);
    output.append("_bg_opt.wasm");
    (public_dir.join_name(input.as_str()), public_dir.join_name(output.as_str()))
}

/// A file or directory to take into the public directory, and whether it
/// is one of the defaults.
#[derive(Debug)]
pub struct IncludeFiles {
    pub path: FsPath,
    pub is_default: bool,
}

/// The files and directories taken into the public directory: those given,
/// else the defaults, marked as such.
pub fn include_files(opts: &BuildOptions) -> (r: Vec<IncludeFiles>)
    ensures
        opts.includes@.len() == 0 ==> r@.len() == spec_default_includes().len() && forall|i: int|
            0 <= i < r@.len() ==> (#[trigger] r@[i]).is_default && r@[i].path@ == (PathView {
                absolute: false,
                parts: seq![spec_default_includes()[i]],
            }),
        opts.includes@.len() > 0 ==> r@.len() == opts.includes@.len() && forall|i: int|
            0 <= i < r@.len() ==> !(#[trigger] r@[i]).is_default && r@[i].path@
                == opts.includes@[i]@,
{
    let mut r: Vec<IncludeFiles> = Vec::new();
    if opts.includes.len() == 0 {
        let public = FsPath::relative(vec![String::from_str("public/")]);
        let favicon = FsPath::relative(vec![String::from_str("favicon.ico")]);
        assert(public@.parts =~= seq!["public/"@]);
        assert(favicon@.parts =~= seq!["favicon.ico"@]);
        r.push(IncludeFiles { path: public, is_default: true });
        r.push(IncludeFiles { path: favicon, is_default: true });
        return r;
    }
    let mut i: usize = 0;
    while i < opts.includes.len()
        invariant
            i <= opts.includes.len(),
            r@.len() == i,
            forall|k: int|
                0 <= k < i ==> !(#[trigger] r@[k]).is_default && r@[k].path@ == opts.includes@[k]@,
        decreases opts.includes.len() - i,
    {
        r.push(IncludeFiles { path: opts.includes[i].duplicate(), is_default: false });
        i = i + 1;
    }
    r
}

/// Why a file cannot be taken into the public directory.
#[derive(Debug, Clone, Copy, PartialEq, Eq, Structural)]
pub enum IncludeError {
    /// The file is outside the current directory.
    OutsideDirectory,
    /// The file is inside the `src` directory.
    InsideSrc,
}

impl IncludeError {
    /// The description of the error.
    pub open spec fn spec_message(self) -> Seq<char> {
        match self {
            IncludeError::OutsideDirectory => "Path to include cannot be outside the current directory, use `--allow-include-external` to include files outside the current directory"@,
            IncludeError::InsideSrc => "Path to include cannot be inside the src directory, use `--allow-include-src` to include files inside the src directory"@,
        }
    }

    /// A description of the error.
    pub fn message(&self) -> (r: &'static str)
        ensures
            r@ == self.spec_message(),
    {
        match self {
            IncludeError::OutsideDirectory => "Path to include cannot be outside the current directory, use `--allow-include-external` to include files outside the current directory",
            IncludeError::InsideSrc => "Path to include cannot be inside the src directory, use `--allow-include-src` to include files inside the src directory",
        }
    }
}

/// Whether a resolved path lies outside a resolved base directory.
pub fn is_outside_directory(base: &FsPath, path: &FsPath) -> (r: bool)
    ensures
        r == spec_strip_prefix(path@, base@) is None,
{
    path.strip_prefix(base).is_none()
}

/// Whether a resolved path lies inside the `src` directory of a resolved
/// base directory; never when that directory does not exist.
pub fn is_inside_src(src_exists: bool, base: &FsPath, path: &FsPath) -> (r: bool)
    ensures
        r == (src_exists && match spec_strip_prefix(path@, base@) {
            Some(rest) => rest.parts.len() > 0 && rest.parts[0] == "src"@,
            None => false,
        }),
{
    if !src_exists {
        return false;
    }
    match path.strip_prefix(base) {
        Some(rest) => rest.parts.len() > 0 && str_eq(rest.parts[0].as_str(), "src"),
        None => false,
    }
}

/// Whether a file can be taken into the public directory: one outside the
/// current directory only when that is allowed, then one inside `src`
/// only when that is allowed.
pub fn check_can_include(
    outside: bool,
    inside_src: bool,
    allow_include_external: bool,
    allow_include_src: bool,
) -> (r: Result<(), IncludeError>)
    ensures
        r == if !allow_include_external && outside {
            Err(IncludeError::OutsideDirectory)
        } else if !allow_include_src && inside_src {
            Err(IncludeError::InsideSrc)
        } else {
            Ok(())
        },
{
    if !allow_include_external && outside {
        return Err(IncludeError::OutsideDirectory);
    }
    if !allow_include_src && inside_src {
        return Err(IncludeError::InsideSrc);
    }
    Ok(())
}

/// The stylesheets looked for in the current directory, in order.
pub open spec fn spec_stylesheet_candidates() -> Seq<Seq<char>> {
    seq!["global.css"@, "global.scss"@, "global.sass"@, "global.less"@]
}

/// The stylesheets looked for in the current directory, in order.
pub fn stylesheet_candidates() -> (r: Vec<&'static str>)
    ensures
        r@.map_values(|a: &str| a@) == spec_stylesheet_candidates(),
{
    let r = vec!["global.css", "global.scss", "global.sass", "global.less"];
    assert(r@.map_values(|a: &str| a@) =~= spec_stylesheet_candidates());
    r
}

/// The Tailwind CSS configurations looked for in the current directory, in order.
pub open spec fn spec_tailwind_configs() -> Seq<Seq<char>> {
    seq!["tailwind.config.js"@, "tailwind.config.ts"@]
}

/// The Tailwind CSS configurations looked for in the current directory, in order.
pub fn tailwind_configs() -> (r: Vec<&'static str>)
    ensures
        r@.map_values(|a: &str| a@) == spec_tailwind_configs(),
{
    let r = vec!["tailwind.config.js", "tailwind.config.ts"];
    assert(r@.map_values(|a: &str| a@) =~= spec_tailwind_configs());
    r
}

/// The first candidate that exists, by the answers for each in order.
pub fn first_existing(exists: &Vec<bool>) -> (r: Option<usize>)
    ensures
        match r {
            Some(i) => i < exists@.len() && exists@[i as int] && forall|k: int|
                0 <= k < i ==> !exists@[k],
            None => forall|k: int| 0 <= k < exists@.len() ==> !exists@[k],
        },
{
    let mut i: usize = 0;
    while i < exists.len()
        invariant
            i <= exists.len(),
            forall|k: int| 0 <= k < i ==> !exists@[k],
        decreases exists.len() - i,
    {
        if exists[i] {
            return Some(i);
        }
        i = i + 1;
    }
    None
}

/// The stylesheet of the build: the one given in the options, else the
/// one found in the current directory.
pub fn styles_file_path(opts: &BuildOptions, detected: Option<FsPath>) -> (r: Option<FsPath>)
    ensures
        opt_view(r) == match opts.styles {
            Some(s) => Some(s@),
            None => opt_view(detected),
        },
{
    match &opts.styles {
        Some(s) => Some(s.duplicate()),
        None => detected,
    }
}

/// How a stylesheet is turned into CSS, by the extension of its file.
#[derive(Debug, Clone, Copy, PartialEq, Eq, Structural)]
pub enum StylesheetKind {
    /// Bundled as CSS.
    Css,
    /// Compiled with Sass.
    Sass,
}

/// Why a stylesheet cannot be processed.
#[derive(Debug, Clone, Copy, PartialEq, Eq, Structural)]
pub enum StylesheetError {
    /// The file has no extension.
    NoExtension,
    /// The extension is not one of a stylesheet.
    Unknown,
}

/// How a stylesheet with the given extension is processed: `css` is
/// bundled, `sass`, `scss` and `less` go through Sass.
pub open spec fn spec_stylesheet_kind(ext: Option<Seq<char>>) -> Result<StylesheetKind, StylesheetError> {
    match ext {
        None => Err(StylesheetError::NoExtension),
        Some(e) => if e == "css"@ {
            Ok(StylesheetKind::Css)
        } else if e == "sass"@ || e == "scss"@ || e == "less"@ {
            Ok(StylesheetKind::Sass)
        } else {
            Err(StylesheetError::Unknown)
        },
    }
}

/// How a stylesheet is processed, by its file's extension.
pub fn stylesheet_kind(style_file: &FsPath) -> (r: Result<StylesheetKind, StylesheetError>)
    ensures
        r == spec_stylesheet_kind(
            match spec_file_name(style_file@) {
                Some(n) => crate::path::name_extension(n),
                None => None,
            },
        ),
{
    match style_file.extension() {
        None => Err(StylesheetError::NoExtension),
        Some(e) => {
            if str_eq(e.as_str(), "css") {
                Ok(StylesheetKind::Css)
            } else if str_eq(e.as_str(), "sass") || str_eq(e.as_str(), "scss") || str_eq(
                e.as_str(),
                "less",
            ) {
                Ok(StylesheetKind::Sass)
            } else {
                Err(StylesheetError::Unknown)
            }
        },
    }
}

/// The CSS file a stylesheet becomes in the destination directory: its
/// stem with the `css` extension.
pub fn css_output(style_file: &FsPath, dest_dir: &FsPath) -> (r: FsPath)
    requires
        style_file.wf(),
        spec_file_name(style_file@) is Some,
    ensures
        r@ == (PathView {
            absolute: dest_dir@.absolute,
            parts: dest_dir@.parts.push(name_stem(spec_file_name(style_file@).unwrap()) + ".css"@),
        }),
{
    let stem = style_file.file_stem().unwrap();
    let mut name = stem;
    name.append(".css");
    proof {
        reveal_strlit(".css");
        assert(".css"@ =~= seq!['.', 'c', 's', 's']);
        let n = spec_file_name(style_file@).unwrap();
        assert(style_file@.parts.last() == n);
        assert(valid_component(style_file@.parts[style_file@.parts.len() - 1]));
        crate::path::lemma_name_parts_no_sep(n);
        lemma_concat_no_sep(name_stem(n), ".css"@);
    }
    dest_dir.join_name(name.as_str())
}

/// The arguments of Tailwind CSS that write the CSS of a stylesheet:
/// `--input {style} --output {out}`, and `--minify` for a release build.
pub fn tailwind_args(style_file: &FsPath, out: &FsPath, release: bool) -> (r: Vec<CommandArg>)
    ensures
        arg_views(r@) == seq![
            ArgView::Text("--input"@),
            ArgView::Path(style_file@),
            ArgView::Text("--output"@),
            ArgView::Path(out@),
        ] + if release {
            seq![ArgView::Text("--minify"@)]
        } else {
            Seq::<ArgView>::empty()
        },
{
    let mut r = vec![
        text_arg("--input"),
        CommandArg::Path(style_file.duplicate()),
        text_arg("--output"),
        CommandArg::Path(out.duplicate()),
    ];
    if release {
        r.push(text_arg("--minify"));
    }
    assert(arg_views(r@) =~= seq![
        ArgView::Text("--input"@),
        ArgView::Path(style_file@),
        ArgView::Text("--output"@),
        ArgView::Path(out@),
    ] + if release {
        seq![ArgView::Text("--minify"@)]
    } else {
        Seq::<ArgView>::empty()
    });
    r
}

/// The arguments of Sass that compile a stylesheet:
/// `{style} {dest} --stop-on-error`, and `--quiet` when quiet.
pub fn sass_args(style_file: &FsPath, dest: &FsPath, quiet: bool) -> (r: Vec<CommandArg>)
    ensures
        arg_views(r@) == seq![
            ArgView::Path(style_file@),
            ArgView::Path(dest@),
            ArgView::Text("--stop-on-error"@),
        ] + if quiet {
            seq![ArgView::Text("--quiet"@)]
        } else {
            Seq::<ArgView>::empty()
        },
{
    let mut r = vec![
        CommandArg::Path(style_file.duplicate()),
        CommandArg::Path(dest.duplicate()),
        text_arg("--stop-on-error"),
    ];
    if quiet {
        r.push(text_arg("--quiet"));
    }
    assert(arg_views(r@) =~= seq![
        ArgView::Path(style_file@),
        ArgView::Path(dest@),
        ArgView::Text("--stop-on-error"@),
    ] + if quiet {
        seq![ArgView::Text("--quiet"@)]
    } else {
        Seq::<ArgView>::empty()
    });
    r
}

/// Splits the files a pipeline can process from the others, keeping the
/// order of each part.
pub fn take_processable<P: Pipeline>(
    pipeline: &P,
    files: Vec<PipelineFile>,
    dest_dir: &FsPath,
) -> (r: (Vec<PipelineFile>, Vec<PipelineFile>))
    ensures
        r.0@ == files@.filter(|f: PipelineFile| pipeline.accepts(f, dest_dir@)),
        r.1@ == files@.filter(|f: PipelineFile| !pipeline.accepts(f, dest_dir@)),
{
    let mut taken: Vec<PipelineFile> = Vec::new();
    let mut kept: Vec<PipelineFile> = Vec::new();
    let ghost all = files@;
    let ghost yes = |f: PipelineFile| pipeline.accepts(f, dest_dir@);
    let ghost no = |f: PipelineFile| !pipeline.accepts(f, dest_dir@);
    let mut rest = files;
    let n = rest.len();
    let mut i: usize = 0;
    proof {
        reveal(Seq::filter);
        assert(all.take(0) =~= Seq::<PipelineFile>::empty());
        assert(rest@ =~= all.skip(0));
    }
    while i < n
        invariant
            n == all.len(),
            i <= n,
            rest@ == all.skip(i as int),
            yes == (|f: PipelineFile| pipeline.accepts(f, dest_dir@)),
            no == (|f: PipelineFile| !pipeline.accepts(f, dest_dir@)),
            taken@ == all.take(i as int).filter(yes),
            kept@ == all.take(i as int).filter(no),
        decreases n - i,
    {
        let f = rest.remove(0);
        proof {
            assert(f == all[i as int]);
            assert(rest@ =~= all.skip(i + 1));
            assert(all.take(i + 1) =~= all.take(i as int).push(all[i as int]));
            all.take(i as int).lemma_filter_push(all[i as int], yes);
            all.take(i as int).lemma_filter_push(all[i as int], no);
        }
        if pipeline.can_process(&f, dest_dir) {
            taken.push(f);
        } else {
            kept.push(f);
        }
        i = i + 1;
    }
    assert(all.take(n as int) =~= all);
    (taken, kept)
}

/// Why the current directory cannot be built.
#[derive(Debug, Clone, Copy, PartialEq, Eq, Structural)]
pub enum BuildCheckError {
    /// `src/lib.rs` is missing.
    LibNotFound,
    /// `src/main.rs` is missing.
    MainNotFound,
}

impl BuildCheckError {
    /// The description of the error.
    pub open spec fn spec_message(self) -> Seq<char> {
        match self {
            BuildCheckError::LibNotFound => "`src/lib.rs` was not found, Ensure you are in the correct directory."@,
            BuildCheckError::MainNotFound => "`src/main.rs` was not found. Ensure you are in the correct directory."@,
        }
    }

    /// A description of the error.
    pub fn message(&self) -> (r: &'static str)
        ensures
            r@ == self.spec_message(),
    {
        match self {
            BuildCheckError::LibNotFound => "`src/lib.rs` was not found, Ensure you are in the correct directory.",
            BuildCheckError::MainNotFound => "`src/main.rs` was not found. Ensure you are in the correct directory.",
        }
    }
}

/// Whether the current directory holds a project the tool builds: the
/// check is skipped when `HASHIRA_SKIP_BUILD_CHECK` is `1`; otherwise the
/// library and then the server entry must exist.
pub fn check_can_build(skip_check: Option<&str>, lib_exists: bool, main_exists: bool) -> (r: Result<
    (),
    BuildCheckError,
>)
    ensures
        r == if skip_check matches Some(s) && s@ == "1"@ {
            Ok(())
        } else if !lib_exists {
            Err(BuildCheckError::LibNotFound)
        } else if !main_exists {
            Err(BuildCheckError::MainNotFound)
        } else {
            Ok(())
        },
{
    if let Some(s) = skip_check {
        if str_eq(s, "1") {
            return Ok(());
        }
    }
    if !lib_exists {
        return Err(BuildCheckError::LibNotFound);
    }
    if !main_exists {
        return Err(BuildCheckError::MainNotFound);
    }
    Ok(())
}

/// Whether Tailwind CSS writes the stylesheet: only with a Tailwind
/// configuration, a stylesheet that exists, and a `css` one.
pub fn tailwind_applies(config_found: bool, style_file: &Option<FsPath>, style_exists: bool) -> (r:
    bool)
    requires
        config_found && style_file.is_some() && style_exists ==> (spec_file_name(
            style_file.unwrap()@,
        ) matches Some(n) && crate::path::name_extension(n) is Some),
    ensures
        r == (config_found && style_exists && match style_file {
            Some(f) => crate::path::name_extension(spec_file_name(f@).unwrap()) == Some("css"@),
            None => false,
        }),
{
    if !config_found {
        return false;
    }
    let f = match style_file {
        Some(f) => f,
        None => {
            return false;
        },
    };
    if !style_exists {
        return false;
    }
    let ext = f.extension().unwrap();
    str_eq(ext.as_str(), "css")
}

/// The name of a crate's library from its package name: `-` becomes `_`.
pub open spec fn spec_lib_name(package: Seq<char>) -> Seq<char> {
    package.map_values(|c: char| if c == '-' { '_' } else { c })
}

/// The name of a crate's library from its package name.
pub fn crate_lib_name(package: &str) -> (r: String)
    ensures
        r@ == spec_lib_name(package@),
{
    let n = package.unicode_len();
    let mut r = String::new();
    let mut i: usize = 0;
    proof {
        reveal_strlit("_");
        assert("_"@ =~= seq!['_']);
    }
    while i < n
        invariant
            n == package@.len(),
            i <= n,
            "_"@ == seq!['_'],
            r@ == spec_lib_name(package@.take(i as int)),
        decreases n - i,
    {
        let c = package.get_char(i);
        let piece = package.substring_char(i, i + 1);
        assert(piece@ =~= seq![c]);
        assert(package@.take(i + 1) =~= package@.take(i as int).push(c));
        if c == '-' {
            r.append("_");
        } else {
            r.append(piece);
        }
        assert(r@ =~= spec_lib_name(package@.take(i + 1)));
        i = i + 1;
    }
    assert(package@.take(n as int) =~= package@);
    r
}

/// The client is always built for WebAssembly: whatever the profile and
/// quietness, its arguments start with `build --target
/// wasm32-unknown-unknown`, and what follows is what follows `build` in the
/// server's build, so both builds share their flags and target directory.
pub proof fn lemma_client_builds_for_wasm(quiet: bool, target_dir: PathView, release: bool)
    ensures
        spec_cargo_build_wasm_args(quiet, target_dir, release).take(3) == seq![
            ArgView::Text("build"@),
            ArgView::Text("--target"@),
            ArgView::Text("wasm32-unknown-unknown"@),
        ],
        spec_cargo_build_wasm_args(quiet, target_dir, release).skip(3) == spec_cargo_build_args(
            quiet,
            target_dir,
            release,
        ).skip(1),
        spec_cargo_build_args(quiet, target_dir, release)[0] == ArgView::Text("build"@),
{
    let w = spec_cargo_build_wasm_args(quiet, target_dir, release);
    let b = spec_cargo_build_args(quiet, target_dir, release);
    let head = seq![
        ArgView::Text("build"@),
        ArgView::Text("--target"@),
        ArgView::Text("wasm32-unknown-unknown"@),
    ];
    let flags = (if quiet {
        seq![ArgView::Text("--quiet"@)]
    } else {
        Seq::<ArgView>::empty()
    }) + seq![ArgView::Text("--target-dir"@), ArgView::Path(target_dir)] + (if release {
        seq![ArgView::Text("--release"@)]
    } else {
        Seq::<ArgView>::empty()
    });
    assert(w =~= head + flags);
    assert(b =~= seq![ArgView::Text("build"@)] + flags);
    assert(w.take(3) =~= head);
    assert(w.skip(3) =~= flags);
    assert(b.skip(1) =~= flags);
}

} // verus!
