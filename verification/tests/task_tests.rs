use hashira_cli::cli::{BuildOptions, DevOptions, NewOptions, ProjectTemplate, RunOptions, UseExample};
use hashira_cli::path::FsPath;
use hashira_cli::platform::TargetOs;
use hashira_cli::tasks::dev::{
    change_action, change_inside_src, remove_ignored_paths, ChangeAction, DevTask,
    RunGate,
};
use hashira_cli::tasks::new::NewTask;
use hashira_cli::tasks::run::{
    append_suffix, binary_name, dev_copy, executable_in, get_executable_path, runs_dev_copy, RunTask,
};
use hashira_cli::tools::CommandArg;

fn rel(parts: &[&str]) -> FsPath {
    FsPath { absolute: false, parts: parts.iter().map(|s| s.to_string()).collect() }
}

fn abs(parts: &[&str]) -> FsPath {
    FsPath { absolute: true, parts: parts.iter().map(|s| s.to_string()).collect() }
}

fn parts(p: &FsPath) -> Vec<&str> {
    p.parts.iter().map(|s| s.as_str()).collect()
}

fn texts(args: &[CommandArg]) -> Vec<String> {
    args.iter()
        .map(|a| match a {
            CommandArg::Text(t) => t.clone(),
            CommandArg::Path(p) => format!("<{}>", p.parts.join("/")),
        })
        .collect()
}

fn build(target_dir: Option<FsPath>, release: bool) -> BuildOptions {
    BuildOptions {
        target_dir,
        public_dir: rel(&["public"]),
        release,
        includes: vec![],
        allow_include_external: false,
        allow_include_src: false,
        quiet: false,
        opt_level: None,
        styles: None,
    }
}

fn new_options() -> NewOptions {
    NewOptions {
        name: None,
        path: None,
        actix_web: false,
        axum: false,
        warp: false,
        tide: false,
        rocket: false,
        deno: false,
        example: None,
        force: false,
        quiet: false,
        dev: false,
    }
}

fn dev_options(target_dir: Option<FsPath>) -> DevOptions {
    DevOptions {
        build_opts: build(target_dir, false),
        static_dir: "/static".to_string(),
        host: "127.0.0.1".to_string(),
        port: 5000,
        reload_host: "localhost".to_string(),
        reload_port: 5002,
        ignore: vec![rel(&["node_modules"])],
    }
}

#[test]
fn new_project_arguments() {
    let mut o = new_options();
    o.axum = true;
    let task = NewTask::new(o);
    assert!(!task.is_example());
    let t = task.get_template(None).unwrap();
    assert_eq!(t, ProjectTemplate::Axum);
    assert_eq!(
        texts(&task.project_args(t)),
        vec!["generate", "--git", "https://github.com/Neo-Ciber94/hashira.git", "templates/with-axum"]
    );
    let mut o = new_options();
    o.name = Some("app".to_string());
    o.path = Some(rel(&["projects"]));
    o.quiet = true;
    o.force = true;
    let task = NewTask::new(o);
    assert_eq!(task.get_template(Some(2)).unwrap(), ProjectTemplate::Rocket);
    assert_eq!(task.get_template(None).unwrap_err(), "You must selected a template");
    assert_eq!(
        texts(&task.project_args(ProjectTemplate::Deno)),
        vec![
            "generate",
            "--git",
            "https://github.com/Neo-Ciber94/hashira.git",
            "templates/with-deno",
            "--name",
            "app",
            "--destination",
            "<projects>",
            "--silent",
            "--overwrite"
        ]
    );
}

#[test]
fn new_example_arguments() {
    let mut o = new_options();
    o.example = Some(UseExample::Template("counter".to_string()));
    let task = NewTask::new(o);
    assert!(task.is_example());
    let ex = task.chosen_example(&vec![], None).unwrap();
    assert_eq!(ex, "counter");
    assert_eq!(
        texts(&task.example_args(&ex)),
        vec!["generate", "--git", "https://github.com/Neo-Ciber94/hashira.git", "examples/counter", "--name", "counter"]
    );
    let mut o = new_options();
    o.example = Some(UseExample::Select);
    o.name = Some("mine".to_string());
    let task = NewTask::new(o);
    let list = vec!["todos".to_string(), "counter".to_string()];
    assert_eq!(task.chosen_example(&list, Some(0)).unwrap(), "todos");
    assert_eq!(task.chosen_example(&list, None).unwrap_err(), "You must selected a example");
    assert_eq!(texts(&task.example_args("todos"))[4..], ["--name".to_string(), "mine".to_string()]);
    let task = NewTask::new(new_options());
    assert_eq!(task.chosen_example(&list, Some(1)).unwrap_err(), "no example provided");
}

#[test]
fn suffix_on_file_names() {
    assert_eq!(parts(&append_suffix(&rel(&["target", "debug", "app.exe"]), "_dev")), vec!["target", "debug", "app_dev.exe"]);
    assert_eq!(parts(&append_suffix(&rel(&["target", "debug", "app"]), "_dev")), vec!["target", "debug", "app_dev"]);
    assert_eq!(parts(&append_suffix(&rel(&[".bashrc"]), "_dev")), vec![".bashrc_dev"]);
    assert_eq!(parts(&append_suffix(&rel(&["a.tar.gz"]), "_x")), vec!["a.tar_x.gz"]);
    assert_eq!(parts(&append_suffix(&rel(&["dir", ".."]), "_dev")), vec!["dir", "..", "_dev"]);
    assert_eq!(parts(&append_suffix(&rel(&["target", "app.exe"]), "")), vec!["target", "app.exe"]);
    assert_eq!(parts(&append_suffix(&rel(&["target", "app.exe"]), "/x")), vec!["target", "app", "x.exe"]);
    assert_eq!(parts(&append_suffix(&rel(&["dir", ".."]), "")), vec!["dir", ".."]);
    let rooted = append_suffix(&rel(&["dir", ".."]), "/opt/y");
    assert!(rooted.absolute);
    assert_eq!(parts(&rooted), vec!["opt", "y"]);
    assert_eq!(parts(&dev_copy(&abs(&["t", "server"]))), vec!["t", "server_dev"]);
}

#[test]
fn executable_paths() {
    assert_eq!(binary_name("server".to_string(), TargetOs::Windows), "server.exe");
    assert_eq!(binary_name("server".to_string(), TargetOs::Linux), "server");
    assert_eq!(parts(&executable_in(&rel(&["target", "debug"]), "server")), vec!["target", "debug", "server"]);
    assert!(runs_dev_copy(true, true));
    assert!(!runs_dev_copy(false, true));
    assert!(!runs_dev_copy(true, false));
    let run = RunOptions { build_opts: build(None, true), static_dir: "/s".to_string(), host: "h".to_string(), port: 1 };
    let p = get_executable_path(&run, "server", || Ok(rel(&["target"]))).unwrap();
    assert_eq!(parts(&p), vec!["target", "release", "server.exe"]);
    assert_eq!(get_executable_path(&run, "server", || Err("no target".to_string())).unwrap_err(), "no target");
}

#[test]
fn run_task_environment() {
    let run = RunOptions { build_opts: build(None, false), static_dir: "/static".to_string(), host: "0.0.0.0".to_string(), port: 8080 };
    let mut task = RunTask::new(run);
    assert!(!task.is_dev);
    task.env("EXTRA", "1".to_string());
    task.env("EXTRA", "2".to_string());
    let envs = task.server_envs("my_lib".to_string());
    let pairs: Vec<(&str, &str)> = envs.iter().map(|(a, b)| (a.as_str(), b.as_str())).collect();
    assert_eq!(
        pairs,
        vec![
            ("HASHIRA_HOST", "0.0.0.0"),
            ("HASHIRA_PORT", "8080"),
            ("HASHIRA_STATIC_DIR", "/static"),
            ("HASHIRA_WASM_LIB", "my_lib"),
            ("EXTRA", "1"),
            ("EXTRA", "2")
        ]
    );
}

#[test]
fn dev_task_setup() {
    let task = DevTask::new(dev_options(Some(rel(&["target"]))));
    let ignores = task.ignore_list();
    let names: Vec<Vec<&str>> = ignores.iter().map(parts).collect();
    assert_eq!(names, vec![vec!["node_modules"], vec![".git"], vec![".gitignore"], vec!["target"]]);
    assert_eq!(task.reload_address(), "localhost:5002");
    let run = task.run_task();
    assert!(run.is_dev);
    let envs: Vec<(&str, &str)> = run.envs.iter().map(|(a, b)| (*a, b.as_str())).collect();
    assert_eq!(
        envs,
        vec![
            ("HASHIRA_LIVE_RELOAD_HOST", "localhost"),
            ("HASHIRA_LIVE_RELOAD_PORT", "5002"),
            ("HASHIRA_LIVE_RELOAD", "1")
        ]
    );
    let none = DevTask::new(dev_options(None));
    assert_eq!(none.ignore_list().len(), 3);
}

#[test]
fn every_ignored_change_is_removed() {
    let ignores = vec![Some(abs(&["p", ".git"])), None, Some(abs(&["p", "target"]))];
    let resolved = vec![
        Some(abs(&["p", "src", "main.rs"])),
        Some(abs(&["p", "target", "debug", "x"])),
        None,
        Some(abs(&["p", ".git", "HEAD"])),
        Some(abs(&["p", "src", "lib.rs"])),
    ];
    let mut events = vec!["main.rs", "x", "unknown", "HEAD", "lib.rs"];
    remove_ignored_paths(&mut events, &resolved, &ignores);
    assert_eq!(events, vec!["main.rs", "unknown", "lib.rs"]);
    let clean = vec![Some(abs(&["p", "src", "lib.rs"]))];
    let mut one = vec!["lib.rs"];
    remove_ignored_paths(&mut one, &clean, &ignores);
    assert_eq!(one, vec!["lib.rs"]);
    let mut none: Vec<&str> = vec![];
    remove_ignored_paths(&mut none, &vec![], &ignores);
    assert!(none.is_empty());
}

#[test]
fn changes_in_sources() {
    let src = abs(&["p", "src"]);
    assert!(change_inside_src(&vec![abs(&["p", "public", "a.css"]), abs(&["p", "src", "main.rs"])], &src));
    assert!(!change_inside_src(&vec![abs(&["p", "public", "a.css"])], &src));
    assert!(!change_inside_src(&vec![], &src));
    assert_eq!(change_action(true, false), ChangeAction::Run);
    assert_eq!(change_action(false, false), ChangeAction::RebuildAssets);
    assert_eq!(change_action(false, true), ChangeAction::InterruptAndRun);
}

#[test]
fn one_launch_at_a_time() {
    let mut gate = RunGate::new();
    assert!(gate.try_start(true, true));
    assert!(!gate.try_start(false, false));
    gate.finish();
    assert!(gate.try_start(false, false));
    gate.finish();
    assert!(!gate.try_start(true, false));
    assert!(!gate.can_run);
}
