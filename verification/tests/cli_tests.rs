use hashira_cli::cli::build_options::default_includes;
use hashira_cli::cli::{
    BuildOptions, DevOptions, LogLevel, NewOptions, ProjectTemplate, RunOptions, UseExample,
    WasmOptimizationLevel,
};
use hashira_cli::path::FsPath;

fn rel(parts: &[&str]) -> FsPath {
    FsPath { absolute: false, parts: parts.iter().map(|s| s.to_string()).collect() }
}

fn parts(p: &FsPath) -> Vec<&str> {
    p.parts.iter().map(|s| s.as_str()).collect()
}

fn build(target_dir: Option<FsPath>, release: bool) -> BuildOptions {
    BuildOptions {
        target_dir,
        public_dir: rel(&["public"]),
        release,
        includes: vec![rel(&["favicon.ico"])],
        allow_include_external: false,
        allow_include_src: false,
        quiet: false,
        opt_level: None,
        styles: None,
    }
}

fn new_options() -> NewOptions {
    NewOptions {
        name: None,
        path: None,
        actix_web: false,
        axum: false,
        warp: false,
        tide: false,
        rocket: false,
        deno: false,
        example: None,
        force: false,
        quiet: false,
        dev: false,
    }
}

#[test]
fn log_levels() {
    assert_eq!(LogLevel::from_str("debug"), Ok(LogLevel::Debug));
    assert_eq!(LogLevel::from_str("INFO"), Ok(LogLevel::Info));
    assert_eq!(LogLevel::from_str("Warn"), Ok(LogLevel::Warn));
    assert_eq!(LogLevel::from_str("error"), Ok(LogLevel::Error));
    assert_eq!(
        LogLevel::from_str("trace"),
        Err("Invalid log level expected: debug, info, warn, error".to_string())
    );
    assert_eq!(LogLevel::Warn.as_str(), "warn");
    assert_eq!(LogLevel::Info.to_string(), "info");
    assert_eq!(LogLevel::Debug.env_filter(), "error,hashira=debug");
    assert_eq!(LogLevel::Error.env_filter(), "error,hashira=error");
    assert!(LogLevel::Debug.shows_time());
    assert!(!LogLevel::Info.shows_time());
}

#[test]
fn log_level_names_read_back() {
    for l in [LogLevel::Debug, LogLevel::Info, LogLevel::Warn, LogLevel::Error] {
        assert_eq!(LogLevel::from_str(l.as_str()), Ok(l));
        assert_eq!(LogLevel::from_str(&l.as_str().to_uppercase()), Ok(l));
    }
}

#[test]
fn wasm_optimization_levels() {
    assert_eq!(WasmOptimizationLevel::from_str("s"), Ok(WasmOptimizationLevel::Size));
    assert_eq!(WasmOptimizationLevel::from_str("z"), Ok(WasmOptimizationLevel::SizeAggressive));
    assert_eq!(WasmOptimizationLevel::from_str("0"), Ok(WasmOptimizationLevel::Level0));
    assert_eq!(WasmOptimizationLevel::from_str("4"), Ok(WasmOptimizationLevel::Level4));
    assert_eq!(
        WasmOptimizationLevel::from_str("5"),
        Err("Invalid wasm optimization level: 5".to_string())
    );
    assert_eq!(WasmOptimizationLevel::Size.to_string(), "-Os");
    assert_eq!(WasmOptimizationLevel::SizeAggressive.to_string(), "-Oz");
    assert_eq!(WasmOptimizationLevel::Level3.to_string(), "-O3");
}

#[test]
fn project_templates() {
    let all = ProjectTemplate::iter();
    assert_eq!(
        all,
        vec![
            ProjectTemplate::ActixWeb,
            ProjectTemplate::Axum,
            ProjectTemplate::Rocket,
            ProjectTemplate::Warp,
            ProjectTemplate::Tide,
            ProjectTemplate::Deno
        ]
    );
    assert_eq!(ProjectTemplate::ActixWeb.git_path(), "templates/with-actix-web");
    assert_eq!(ProjectTemplate::Deno.git_path(), "templates/with-deno");
    assert_eq!(ProjectTemplate::ActixWeb.to_string(), "Actix Web");
    assert_eq!(ProjectTemplate::Tide.to_string(), "Tide");
}

#[test]
fn template_flags_priority() {
    let mut o = new_options();
    assert_eq!(o.template(), None);
    o.deno = true;
    assert_eq!(o.template(), Some(ProjectTemplate::Deno));
    o.warp = true;
    assert_eq!(o.template(), Some(ProjectTemplate::Warp));
    o.rocket = true;
    assert_eq!(o.template(), Some(ProjectTemplate::Rocket));
    o.actix_web = true;
    assert_eq!(o.template(), Some(ProjectTemplate::ActixWeb));
}

#[test]
fn example_option_values() {
    assert!(matches!(UseExample::from_str("  "), Ok(UseExample::Select)));
    assert!(matches!(UseExample::from_str(""), Ok(UseExample::Select)));
    match UseExample::from_str(" counter ") {
        Ok(UseExample::Template(t)) => assert_eq!(t, " counter "),
        other => panic!("unexpected {other:?}"),
    }
}

#[test]
fn target_directories() {
    let given = build(Some(rel(&["out"])), true);
    let dir = given.resolved_target_dir(|| -> Result<FsPath, String> { panic!("not asked") }).unwrap();
    assert_eq!(parts(&dir), vec!["out"]);
    assert_eq!(parts(&given.profile_target_dir(|| Err("unused".to_string())).unwrap()), vec!["out", "release"]);
    let detected = build(None, false);
    let dir = detected.profile_target_dir(|| Ok(rel(&["target"]))).unwrap();
    assert_eq!(parts(&dir), vec!["target", "debug"]);
    assert_eq!(detected.profile_target_dir(|| Err("no cargo".to_string())).unwrap_err(), "no cargo");
}

#[test]
fn option_copies() {
    assert_eq!(default_includes(), vec!["public/", "favicon.ico"]);
    let dev = DevOptions {
        build_opts: build(None, true),
        static_dir: "/static".to_string(),
        host: "127.0.0.1".to_string(),
        port: 5000,
        reload_host: "127.0.0.1".to_string(),
        reload_port: 5002,
        ignore: vec![rel(&["dist"])],
    };
    let run = RunOptions::from_dev(&dev);
    assert_eq!(run.static_dir, "/static");
    assert_eq!(run.port, 5000);
    assert!(run.build_opts.release);
    assert_eq!(parts(&run.build_opts.includes[0]), vec!["favicon.ico"]);
    let b = BuildOptions::from_dev(&dev);
    assert!(b.release);
    let b2 = BuildOptions::from_run(&run);
    assert_eq!(parts(&b2.public_dir), vec!["public"]);
    let copy = dev.duplicate();
    assert_eq!(parts(&copy.ignore[0]), vec!["dist"]);
    assert_eq!(copy.reload_port, 5002);
    assert!(run.resolved_target_dir(|| Ok(rel(&["t"]))).is_ok());
}
