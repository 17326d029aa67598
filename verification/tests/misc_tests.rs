use hashira_cli::adapters::HashiraDeno;
use hashira_cli::cli::BuildOptions;
use hashira_cli::config::{Config, RunConfig, Stage, StageCommand, WatchConfig};
use hashira_cli::macros::{ActionAttr, ActionFn, AttrError, AttrToken, PageComponentAttr, PageRender};
use hashira_cli::path::FsPath;
use hashira_cli::pipelines::{get_file_dest, CopyFilesPipeline, Pipeline, PipelineFile};
use hashira_cli::utils::fetch_examples::{
    example_dirs, example_folder_url, example_from, example_with_manifest, examples_url,
    manifest_description_of, manifest_url,
    ExampleTemplate, GitHubContent,
};

fn rel(parts: &[&str]) -> FsPath {
    FsPath { absolute: false, parts: parts.iter().map(|s| s.to_string()).collect() }
}

fn abs(parts: &[&str]) -> FsPath {
    FsPath { absolute: true, parts: parts.iter().map(|s| s.to_string()).collect() }
}

fn parts(p: &FsPath) -> Vec<&str> {
    p.parts.iter().map(|s| s.as_str()).collect()
}

fn content(name: &str, kind: &str, url: Option<&str>) -> GitHubContent {
    GitHubContent {
        name: name.to_string(),
        path: format!("examples/{name}"),
        download_url: url.map(|u| u.to_string()),
        content_type: kind.to_string(),
    }
}

fn ident(s: &str) -> AttrToken {
    AttrToken::Ident(s.to_string())
}

fn lit(s: &str) -> AttrToken {
    AttrToken::Str(s.to_string())
}

#[test]
fn file_destinations() {
    let d = get_file_dest(&abs(&["p", "assets"]), &abs(&["p", "assets", "json", "products.json"]), &abs(&["p", "public"]));
    assert_eq!(parts(&d.dest), vec!["p", "public", "json", "products.json"]);
    assert_eq!(parts(d.create_dir.as_ref().unwrap()), vec!["p", "public", "json"]);
    let flat = get_file_dest(&abs(&["p", "assets"]), &abs(&["p", "assets", "a.css"]), &abs(&["p", "public"]));
    assert_eq!(parts(&flat.dest), vec!["p", "public", "a.css"]);
    let outside = get_file_dest(&abs(&["p", "assets"]), &abs(&["q", "favicon.ico"]), &abs(&["p", "public"]));
    assert_eq!(parts(&outside.dest), vec!["p", "public", "favicon.ico"]);
    assert!(outside.create_dir.is_none());
}

#[test]
fn file_destination_of_a_name_in_its_directory() {
    let d = get_file_dest(&rel(&["assets", "json"]), &rel(&["products.json"]), &rel(&["public"]));
    assert_eq!(parts(d.create_dir.as_ref().unwrap()), vec!["public", "assets", "json"]);
    assert_eq!(parts(&d.dest), vec!["public", "assets", "json", "products.json"]);
    assert!(!d.dest.absolute);
}

#[test]
fn copy_pipeline() {
    let p = CopyFilesPipeline;
    assert_eq!(p.name(), "copy files");
    let f = PipelineFile { base_dir: rel(&["a"]), file: rel(&["a", "b.txt"]) };
    assert!(p.can_process(&f, &rel(&["public"])));
}

#[test]
fn example_listing() {
    let listing = vec![
        content("README.md", "file", Some("https://x/README.md")),
        content("counter", "dir", None),
        content("todos", "dir", None),
    ];
    let dirs = example_dirs(listing);
    let names: Vec<&str> = dirs.iter().map(|c| c.name.as_str()).collect();
    assert_eq!(names, vec!["counter", "todos"]);
    let inside = vec![
        content("src", "dir", None),
        content("Cargo.toml", "file", Some("https://raw/Cargo.toml")),
        content("Cargo.toml", "file", Some("https://raw/other")),
    ];
    assert_eq!(manifest_url(&inside), Some("https://raw/Cargo.toml".to_string()));
    assert_eq!(manifest_url(&vec![content("Cargo.toml", "file", None), content("Cargo.toml", "file", Some("u"))]), None);
    assert_eq!(manifest_url(&vec![]), None);
}

#[test]
fn example_lines() {
    let e = ExampleTemplate { name: "counter".to_string(), path: "examples/counter".to_string(), description: Some("A counter".to_string()) };
    assert_eq!(e.to_string(), format!("{:30}{}", "counter", "A counter"));
    assert_eq!(e.to_string().len(), 39);
    let long = "x".repeat(35);
    let e2 = ExampleTemplate { name: long.clone(), path: String::new(), description: Some("d".to_string()) };
    assert_eq!(e2.to_string(), format!("{long}d"));
    let e3 = example_from(content("todos", "dir", None), None);
    assert_eq!(e3.to_string(), "todos");
    assert_eq!(e3.path, "examples/todos");
}

#[test]
fn example_addresses() {
    assert_eq!(examples_url(), "https://api.github.com/repos/Neo-Ciber94/hashira/contents/examples");
    assert_eq!(
        example_folder_url("counter"),
        "https://api.github.com/repos/Neo-Ciber94/hashira/contents/examples/counter"
    );
}

#[test]
fn manifest_descriptions() {
    let manifest = b"[package]\nname = \"counter\"\nversion = \"0.1.0\"\ndescription = \"A counter example\"\n";
    assert_eq!(manifest_description_of(manifest), Some(Some("A counter example".to_string())));
    let plain = b"[package]\nname = \"counter\"\nversion = \"0.1.0\"\n";
    assert_eq!(manifest_description_of(plain), Some(None));
    assert_eq!(manifest_description_of(b"not [ toml"), Some(None));
    let inherited = b"[package]\nname = \"c\"\nversion = \"0.1.0\"\ndescription.workspace = true\n";
    assert_eq!(manifest_description_of(inherited), None);
    let workspace = b"[workspace]\nmembers = [\"a\"]\n";
    assert_eq!(manifest_description_of(workspace), None);
    let e = example_with_manifest(content("counter", "dir", None), Some(manifest.to_vec())).unwrap();
    assert_eq!(e.description, Some("A counter example".to_string()));
    assert_eq!(e.name, "counter");
    let none = example_with_manifest(content("counter", "dir", None), None).unwrap();
    assert_eq!(none.description, None);
    let unreadable = example_with_manifest(content("counter", "dir", None), Some(b"not [ toml".to_vec())).unwrap();
    assert_eq!(unreadable.description, None);
    assert!(example_with_manifest(content("counter", "dir", None), Some(inherited.to_vec())).is_none());
}

#[test]
fn page_component_plans() {
    let a = PageComponentAttr::parse(&vec![lit("/hello")]).unwrap();
    let p = a.plan("HelloPage");
    assert_eq!(p.component, "HelloPage");
    assert_eq!(p.id_tail, "::HelloPage");
    assert_eq!(p.route, Some("/hello".to_string()));
    assert!(matches!(p.render, PageRender::Default));
    let b = PageComponentAttr::parse(&vec![ident("None"), AttrToken::Punct(','), ident("render"), AttrToken::Punct('='), lit("render_page")]).unwrap();
    let q = b.plan("Page");
    assert_eq!(q.route, None);
    match q.render {
        PageRender::Custom(f) => assert_eq!(f, "render_page"),
        PageRender::Default => panic!("expected a render function"),
    }
}

#[test]
fn page_component_arguments() {
    let a = PageComponentAttr::parse(&vec![lit("/hello")]).unwrap();
    assert_eq!(a.route, Some("/hello".to_string()));
    assert_eq!(a.render, None);
    let b = PageComponentAttr::parse(&vec![ident("None"), AttrToken::Punct(','), ident("render"), AttrToken::Punct('='), lit("render_page")]).unwrap();
    assert_eq!(b.route, None);
    assert_eq!(b.render, Some("render_page".to_string()));
    assert_eq!(PageComponentAttr::parse(&vec![]).unwrap_err(), AttrError::ExpectedRoute);
    assert_eq!(PageComponentAttr::parse(&vec![ident("Some")]).unwrap_err(), AttrError::ExpectedRoute);
    assert_eq!(PageComponentAttr::parse(&vec![lit("/"), lit("x")]).unwrap_err(), AttrError::ExpectedRenderArgument);
    assert_eq!(PageComponentAttr::parse(&vec![lit("/"), AttrToken::Punct(',')]).unwrap_err(), AttrError::ExpectedIdent);
    assert_eq!(PageComponentAttr::parse(&vec![lit("/"), AttrToken::Punct(','), ident("loader")]).unwrap_err(), AttrError::InvalidSignature);
    assert_eq!(PageComponentAttr::parse(&vec![lit("/"), AttrToken::Punct(','), ident("render"), lit("x")]).unwrap_err(), AttrError::ExpectedEquals);
    assert_eq!(PageComponentAttr::parse(&vec![lit("/"), AttrToken::Punct(','), ident("render"), AttrToken::Punct('=')]).unwrap_err(), AttrError::ExpectedString);
    assert_eq!(
        PageComponentAttr::parse(&vec![lit("/"), AttrToken::Punct(','), ident("render"), AttrToken::Punct('='), lit("r"), AttrToken::Other]).unwrap_err(),
        AttrError::UnexpectedToken
    );
}

#[test]
fn action_arguments_and_plan() {
    let a = ActionAttr::parse(&vec![lit("/api/create")]).unwrap();
    assert_eq!(a.route, "/api/create");
    assert_eq!(ActionAttr::parse(&vec![]).unwrap_err(), AttrError::ActionRoute);
    assert_eq!(ActionAttr::parse(&vec![ident("x")]).unwrap_err(), AttrError::ActionRoute);
    assert_eq!(ActionAttr::parse(&vec![lit("/a"), lit("/b")]).unwrap_err(), AttrError::UnexpectedToken);
    let f = ActionFn { name: "CreateTodo".to_string(), is_async: true, output: None };
    let plan = a.plan(&f).unwrap();
    assert_eq!(plan.marker, "CreateTodo");
    assert_eq!(plan.renamed, "_CreateTodo");
    assert_eq!(plan.response, "()");
    assert_eq!(plan.route, "/api/create");
    let g = ActionFn { name: "F".to_string(), is_async: true, output: Some("Result<Json<Todo>>".to_string()) };
    assert_eq!(a.plan(&g).unwrap().response, "Result<Json<Todo>>");
    let sync = ActionFn { name: "F".to_string(), is_async: false, output: None };
    assert_eq!(a.plan(&sync).unwrap_err(), AttrError::NotAsync);
    assert_eq!(AttrError::NotAsync.message(), "server actions should be async");
}

#[test]
fn configuration_parts() {
    let build = BuildOptions {
        target_dir: None,
        public_dir: rel(&["public"]),
        release: false,
        includes: vec![],
        allow_include_external: false,
        allow_include_src: false,
        quiet: true,
        opt_level: None,
        styles: None,
    };
    let config = Config {
        build,
        watch: Some(WatchConfig { reload_host: "h".to_string(), reload_port: 1, watch: vec![], ignore: vec![] }),
        run: Some(RunConfig { static_dir: "/static".to_string(), host: "h".to_string(), port: 2 }),
    };
    assert!(config.build().quiet);
    assert_eq!(config.watch().reload_port, 1);
    assert_eq!(config.run().port, 2);
    let c = StageCommand { command: "echo".to_string(), stage: Stage::PreBuild, args: vec!["hi".to_string()] };
    assert_eq!(c.stage, Stage::PreBuild);
    assert_ne!(Stage::PreBuild, Stage::PostBuild);
    assert_eq!(HashiraDeno::new(), HashiraDeno);
}
