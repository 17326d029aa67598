use hashira_cli::cli::{BuildOptions, WasmOptimizationLevel};
use hashira_cli::macros::{ActionAttr, AttrToken, PageComponentAttr};
use hashira_cli::path::FsPath;
use hashira_cli::pipelines::{CopyFilesPipeline, PipelineFile};
use hashira_cli::tasks::build_task::{
    cargo_build_args, cargo_build_wasm_args, check_can_build, check_can_include, crate_lib_name,
    css_output, effective_opt_level, first_existing, include_files, is_inside_src,
    is_outside_directory, optimized_wasm_files, public_dir_in, sass_args, styles_file_path,
    stylesheet_candidates, stylesheet_kind, tailwind_applies, tailwind_args, tailwind_configs,
    take_processable, wasm_bindgen_args, wasm_file, BuildCheckError, BuildTask, IncludeError,
    StylesheetError, StylesheetKind,
};
use hashira_cli::tools::{download_file_name, CommandArg, Tool};
use hashira_cli::tools::node_js::NodeJs;
use hashira_cli::tools::sass::Sass;

fn rel(parts: &[&str]) -> FsPath {
    FsPath { absolute: false, parts: parts.iter().map(|s| s.to_string()).collect() }
}

fn abs(parts: &[&str]) -> FsPath {
    FsPath { absolute: true, parts: parts.iter().map(|s| s.to_string()).collect() }
}

fn parts(p: &FsPath) -> Vec<&str> {
    p.parts.iter().map(|s| s.as_str()).collect()
}

fn texts(args: &[CommandArg]) -> Vec<String> {
    args.iter()
        .map(|a| match a {
            CommandArg::Text(t) => t.clone(),
            CommandArg::Path(p) => format!("<{}>", p.parts.join("/")),
        })
        .collect()
}

fn build(release: bool, quiet: bool) -> BuildOptions {
    BuildOptions {
        target_dir: None,
        public_dir: rel(&["public"]),
        release,
        includes: vec![],
        allow_include_external: false,
        allow_include_src: false,
        quiet,
        opt_level: None,
        styles: None,
    }
}

#[test]
fn cargo_arguments() {
    let target = rel(&["target"]);
    assert_eq!(texts(&cargo_build_args(&build(false, false), &target)), vec!["build", "--target-dir", "<target>"]);
    assert_eq!(
        texts(&cargo_build_args(&build(true, true), &target)),
        vec!["build", "--quiet", "--target-dir", "<target>", "--release"]
    );
    assert_eq!(
        texts(&cargo_build_wasm_args(&build(true, false), &target)),
        vec!["build", "--target", "wasm32-unknown-unknown", "--target-dir", "<target>", "--release"]
    );
}

#[test]
fn client_outputs() {
    let target = rel(&["target"]);
    assert_eq!(parts(&public_dir_in(&build(false, false), &target)), vec!["target", "debug", "public"]);
    assert_eq!(
        parts(&wasm_file(&build(true, false), &target, "my_app")),
        vec!["target", "wasm32-unknown-unknown", "release", "my_app.wasm"]
    );
    let public = rel(&["target", "release", "public"]);
    let (input, output) = optimized_wasm_files(&public, "my_app");
    assert_eq!(parts(&input), vec!["target", "release", "public", "my_app_bg.wasm"]);
    assert_eq!(parts(&output), vec!["target", "release", "public", "my_app_bg_opt.wasm"]);
    assert_eq!(
        texts(&wasm_bindgen_args(&public, &rel(&["a.wasm"]))),
        vec!["--target", "web", "--no-typescript", "--out-dir", "<target/release/public>", "<a.wasm>"]
    );
    assert_eq!(crate_lib_name("my-web-app"), "my_web_app");
    assert_eq!(crate_lib_name("app"), "app");
}

#[test]
fn optimization_levels() {
    let mut o = build(true, false);
    assert_eq!(effective_opt_level(&o), Some(WasmOptimizationLevel::Level4));
    o.opt_level = Some(WasmOptimizationLevel::Size);
    assert_eq!(effective_opt_level(&o), Some(WasmOptimizationLevel::Size));
    let d = build(false, false);
    assert_eq!(effective_opt_level(&d), None);
}

#[test]
fn include_defaults() {
    let files = include_files(&build(false, false));
    assert_eq!(files.len(), 2);
    assert!(files.iter().all(|f| f.is_default));
    assert_eq!(parts(&files[0].path), vec!["public/"]);
    assert_eq!(parts(&files[1].path), vec!["favicon.ico"]);
    let mut o = build(false, false);
    o.includes = vec![rel(&["assets"])];
    let given = include_files(&o);
    assert_eq!(given.len(), 1);
    assert!(!given[0].is_default);
}

#[test]
fn include_checks() {
    let cwd = abs(&["p"]);
    assert!(is_outside_directory(&cwd, &abs(&["q", "x"])));
    assert!(!is_outside_directory(&cwd, &abs(&["p", "x"])));
    assert!(is_inside_src(true, &cwd, &abs(&["p", "src", "main.rs"])));
    assert!(!is_inside_src(false, &cwd, &abs(&["p", "src", "main.rs"])));
    assert!(!is_inside_src(true, &cwd, &abs(&["p", "assets"])));
    assert_eq!(check_can_include(true, true, false, false), Err(IncludeError::OutsideDirectory));
    assert_eq!(check_can_include(true, true, true, false), Err(IncludeError::InsideSrc));
    assert_eq!(check_can_include(false, true, false, true), Ok(()));
    assert!(IncludeError::InsideSrc.message().contains("--allow-include-src"));
}

#[test]
fn build_checks() {
    assert_eq!(check_can_build(Some("1"), false, false), Ok(()));
    assert_eq!(check_can_build(Some("0"), false, true), Err(BuildCheckError::LibNotFound));
    assert_eq!(check_can_build(None, true, false), Err(BuildCheckError::MainNotFound));
    assert_eq!(check_can_build(None, true, true), Ok(()));
    assert_eq!(BuildCheckError::LibNotFound.message(), "`src/lib.rs` was not found, Ensure you are in the correct directory.");
    let task = BuildTask::new(build(true, false));
    assert!(task.options.release);
}

#[test]
fn stylesheets() {
    assert_eq!(stylesheet_candidates(), vec!["global.css", "global.scss", "global.sass", "global.less"]);
    assert_eq!(tailwind_configs(), vec!["tailwind.config.js", "tailwind.config.ts"]);
    assert_eq!(first_existing(&vec![false, true, true]), Some(1));
    assert_eq!(first_existing(&vec![false, false]), None);
    let mut o = build(false, false);
    assert_eq!(parts(&styles_file_path(&o, Some(rel(&["global.scss"]))).unwrap()), vec!["global.scss"]);
    o.styles = Some(rel(&["styles", "main.css"]));
    assert_eq!(parts(&styles_file_path(&o, Some(rel(&["global.scss"]))).unwrap()), vec!["styles", "main.css"]);
    assert_eq!(stylesheet_kind(&rel(&["a.css"])), Ok(StylesheetKind::Css));
    assert_eq!(stylesheet_kind(&rel(&["a.scss"])), Ok(StylesheetKind::Sass));
    assert_eq!(stylesheet_kind(&rel(&["a.less"])), Ok(StylesheetKind::Sass));
    assert_eq!(stylesheet_kind(&rel(&["a"])), Err(StylesheetError::NoExtension));
    assert_eq!(stylesheet_kind(&rel(&["a.txt"])), Err(StylesheetError::Unknown));
    let out = css_output(&rel(&["styles", "global.scss"]), &rel(&["target", "debug", "public"]));
    assert_eq!(parts(&out), vec!["target", "debug", "public", "global.css"]);
    assert!(tailwind_applies(true, &Some(rel(&["global.css"])), true));
    assert!(!tailwind_applies(true, &Some(rel(&["global.scss"])), true));
    assert!(!tailwind_applies(false, &Some(rel(&["global.css"])), true));
    assert!(!tailwind_applies(true, &None, false));
    assert_eq!(
        texts(&tailwind_args(&rel(&["global.css"]), &rel(&["out.css"]), true)),
        vec!["--input", "<global.css>", "--output", "<out.css>", "--minify"]
    );
    assert_eq!(
        texts(&sass_args(&rel(&["a.scss"]), &rel(&["a.css"]), true)),
        vec!["<a.scss>", "<a.css>", "--stop-on-error", "--quiet"]
    );
}

#[test]
fn pipeline_partition() {
    let files = vec![
        PipelineFile { base_dir: rel(&["a"]), file: rel(&["a", "x.txt"]) },
        PipelineFile { base_dir: rel(&["a"]), file: rel(&["a", "y.txt"]) },
    ];
    let (taken, kept) = take_processable(&CopyFilesPipeline, files, &rel(&["public"]));
    assert_eq!(taken.len(), 2);
    assert!(kept.is_empty());
    assert_eq!(parts(&taken[1].file), vec!["a", "y.txt"]);
}

#[test]
fn download_names_and_version_guards() {
    assert_eq!(
        download_file_name("https://nodejs.org/download/release/v16.20.0/node-v16.20.0-linux-x64.tar.gz"),
        "node-v16.20.0-linux-x64.tar.gz"
    );
    assert_eq!(download_file_name("plain"), "plain");
    assert_eq!(download_file_name("https://x/"), "");
    assert!(NodeJs::can_parse_version("v16.20.0"));
    assert!(!NodeJs::can_parse_version("   "));
    assert!(!NodeJs::can_parse_version("é16.0.0"));
    assert!(Sass::can_parse_version(""));
}

#[test]
fn readme_page_component_example() {
    let tokens = vec![
        AttrToken::Str("/products".to_string()),
        AttrToken::Punct(','),
        AttrToken::Ident("render".to_string()),
        AttrToken::Punct('='),
        AttrToken::Str("render_page".to_string()),
    ];
    let attr = PageComponentAttr::parse(&tokens).unwrap();
    assert_eq!(attr.route.as_deref(), Some("/products"));
    assert_eq!(attr.render.as_deref(), Some("render_page"));
    let action = ActionAttr::parse(&vec![AttrToken::Str("/api/products/create".to_string())]).unwrap();
    assert_eq!(action.route, "/api/products/create");
}

#[test]
fn well_formed_paths() {
    assert!(rel(&["a", "b"]).well_formed());
    assert!(!rel(&["a", ""]).well_formed());
    assert!(!rel(&["a/b"]).well_formed());
}
