use hashira_cli::path::FsPath;
use hashira_cli::platform::{TargetArch, TargetOs};
use hashira_cli::tools::archive::{ArchiveKind, ExtractBehavior, ExtractOptions};
use hashira_cli::tools::cargo_generate::{self, CargoGenerate};
use hashira_cli::tools::global_cache::FindVersion;
use hashira_cli::tools::node_js::{self, NodeJs};
use hashira_cli::tools::npm::Npm;
use hashira_cli::tools::npx::Npx;
use hashira_cli::tools::parcel::Parcel;
use hashira_cli::tools::sass::{self, Sass};
use hashira_cli::tools::tailwindcss::{self, TailwindCss};
use hashira_cli::tools::wasm_bindgen::{self, WasmBindgen};
use hashira_cli::tools::{
    assert_include_files, binary_include_path, fixed_by_node, requested_version, CommandArg,
    LoadOptions, Tool, ToolError,
};
use hashira_cli::version::{Version, VersionError};

fn rel(parts: &[&str]) -> FsPath {
    FsPath { absolute: false, parts: parts.iter().map(|s| s.to_string()).collect() }
}

fn abs(parts: &[&str]) -> FsPath {
    FsPath { absolute: true, parts: parts.iter().map(|s| s.to_string()).collect() }
}

fn parts(p: &FsPath) -> Vec<&str> {
    p.parts.iter().map(|s| s.as_str()).collect()
}

fn texts(args: &[CommandArg]) -> Vec<String> {
    args.iter()
        .map(|a| match a {
            CommandArg::Text(t) => t.clone(),
            CommandArg::Path(p) => format!("<{}>", p.parts.join("/")),
        })
        .collect()
}

fn no_options() -> LoadOptions {
    LoadOptions { version: None, install_dir: None }
}

#[test]
fn node_urls_of_the_default_version() {
    assert_eq!(
        node_js::get_download_url("16.20.0", TargetOs::Linux, TargetArch::X86_64).unwrap(),
        "https://nodejs.org/download/release/v16.20.0/node-v16.20.0-linux-x64.tar.gz"
    );
    assert_eq!(
        node_js::get_download_url("16.20.0", TargetOs::MacOs, TargetArch::X86_64).unwrap(),
        "https://nodejs.org/download/release/v16.20.0/node-v16.20.0-darwin-x64.tar.gz"
    );
    assert_eq!(
        node_js::get_download_url("16.20.0", TargetOs::Windows, TargetArch::X86_64).unwrap(),
        "https://nodejs.org/download/release/v16.20.0/node-v16.20.0-win-x86.zip"
    );
    assert_eq!(
        node_js::get_download_url("18.16.0", TargetOs::Linux, TargetArch::Aarch64).unwrap(),
        "https://nodejs.org/download/release/v18.16.0/node-v18.16.0-linux-arm64.tar.gz"
    );
}

#[test]
fn node_url_errors() {
    assert_eq!(
        node_js::get_download_url("16.20.0", TargetOs::Other, TargetArch::X86_64),
        Err(ToolError::UnsupportedOs)
    );
    assert_eq!(
        node_js::get_download_url("16.20.0", TargetOs::Linux, TargetArch::Other),
        Err(ToolError::UnsupportedArch)
    );
    assert_eq!(
        node_js::get_download_url("16.20.0", TargetOs::Windows, TargetArch::Aarch64),
        Err(ToolError::UnsupportedTarget)
    );
}

#[test]
fn node_base_paths_and_extraction() {
    assert_eq!(
        node_js::base_path("16.20.0", TargetOs::Linux, TargetArch::X86_64).unwrap(),
        "node-v16.20.0-linux-x64"
    );
    assert_eq!(
        node_js::base_path("16.20.0", TargetOs::MacOs, TargetArch::X86_64).unwrap(),
        "node-v16.20.0-darwin-x64"
    );
    assert_eq!(
        node_js::base_path("16.20.0", TargetOs::OtherUnix, TargetArch::X86_64),
        Err(ToolError::UnsupportedOs)
    );
    match node_js::extract_behavior("16.20.0", TargetOs::Linux, TargetArch::X86_64).unwrap() {
        ExtractBehavior::Dir(d) => assert_eq!(parts(&d), vec!["node-v16.20.0-linux-x64", "bin"]),
        other => panic!("unexpected behavior {other:?}"),
    }
    assert!(matches!(
        node_js::extract_behavior("16.20.0", TargetOs::Windows, TargetArch::X86_64),
        Ok(ExtractBehavior::SkipBasePath)
    ));
}

#[test]
fn node_tool_facts() {
    assert_eq!(NodeJs::name(), "node");
    assert_eq!(NodeJs::binary_name(TargetOs::Windows), "node.exe");
    assert_eq!(NodeJs::binary_name(TargetOs::Linux), "node");
    assert_eq!(NodeJs::default_version(), Version::new(16, 20, Some(0)));
    assert_eq!(NodeJs::test_version_args(), vec!["--version"]);
    assert_eq!(NodeJs::parse_version("v16.20.0\n"), Ok(Version::new(16, 20, Some(0))));
    assert_eq!(
        NodeJs::parse_version("vx.1.0"),
        Err(ToolError::Version(VersionError::InvalidMayor))
    );
    assert_eq!(NodeJs::additional_files(TargetOs::Windows), vec!["npx", "npx.cmd", "npm", "npm.cmd"]);
    assert_eq!(NodeJs::additional_files(TargetOs::Linux), vec!["npx", "npm"]);
    assert!(NodeJs::accepts_system_version(&Version::new(18, 0, Some(0))));
    assert!(!NodeJs::accepts_system_version(&Version::new(16, 19, Some(9))));
    let node = NodeJs::new(abs(&["opt", "node", "bin", "node"]));
    assert_eq!(parts(node.binary_path()), vec!["opt", "node", "bin", "node"]);
}

#[test]
fn npm_and_npx_beside_node() {
    let node = NodeJs::new(abs(&["opt", "node", "bin", "node"]));
    let npm = Npm::from_node(&node, TargetOs::Linux).unwrap();
    assert_eq!(parts(npm.binary_path()), vec!["opt", "node", "bin", "npm"]);
    let npx = Npx::from_node(&node, TargetOs::Windows).unwrap();
    assert_eq!(parts(npx.binary_path()), vec!["opt", "node", "bin", "npx.cmd"]);
    let rootless = NodeJs::new(rel(&[]));
    assert!(matches!(Npm::from_node(&rootless, TargetOs::Linux), Err(ToolError::NoParentDirectory)));
}

#[test]
fn npm_and_npx_arguments() {
    let node = NodeJs::new(abs(&["n", "node"]));
    let npm = Npm::from_node(&node, TargetOs::Linux).unwrap();
    let dir = rel(&["cache"]);
    assert_eq!(
        texts(&npm.install_cmd("parcel@2.8.3".to_string(), &dir)),
        vec!["install", "parcel@2.8.3", "--prefix", "<cache>"]
    );
    let npx = Npx::from_node(&node, TargetOs::Linux).unwrap();
    assert_eq!(texts(&npx.exec_global("serve".to_string())), vec!["serve"]);
    assert_eq!(
        texts(&npx.exec_cmd("serve".to_string(), &dir)),
        vec!["serve", "--prefix", "<cache>"]
    );
    assert_eq!(Npm::parse_version(" 8.18.4\n"), Ok(Version::new(8, 18, Some(4))));
    assert_eq!(Npx::default_version(), Version::new(8, 18, Some(4)));
}

#[test]
fn npm_options_follow_node() {
    assert_eq!(fixed_by_node(&no_options()), Ok(()));
    let with_version = LoadOptions { version: Some(Version::new(1, 0, None)), install_dir: Some(rel(&["x"])) };
    assert_eq!(fixed_by_node(&with_version), Err(ToolError::VersionNotSelectable));
    let with_dir = LoadOptions { version: None, install_dir: Some(rel(&["x"])) };
    assert_eq!(fixed_by_node(&with_dir), Err(ToolError::InstallDirNotSelectable));
}

#[test]
fn sass_facts_and_urls() {
    assert_eq!(Sass::binary_name(TargetOs::Windows), "sass.bat");
    assert_eq!(Sass::included_files(TargetOs::Linux), vec!["sass", "src/dart", "src/sass.snapshot"]);
    assert_eq!(Sass::parse_version("1.62.0\n"), Ok(Version::new(1, 62, Some(0))));
    let v = Sass::default_version();
    assert_eq!(
        sass::get_download_url(&v, TargetOs::Windows, TargetArch::X86_64).unwrap(),
        "https://github.com/sass/dart-sass/releases/download/1.62.0/dart-sass-1.62.0-windows-x64.zip"
    );
    assert_eq!(
        sass::get_download_url(&v, TargetOs::Linux, TargetArch::X86_64).unwrap(),
        "https://github.com/sass/dart-sass/releases/download/1.62.0/dart-sass-1.62.0-linux-x64.tar.gz"
    );
    assert_eq!(
        sass::get_download_url(&v, TargetOs::MacOs, TargetArch::Aarch64).unwrap(),
        "https://github.com/sass/dart-sass/releases/download/1.62.0/dart-sass-1.62.0-macos-arm64.tar.gz"
    );
    assert_eq!(
        sass::get_download_url(&v, TargetOs::Windows, TargetArch::Aarch64),
        Err(ToolError::UnsupportedTarget)
    );
    let opts = Sass::install_options(no_options(), TargetOs::Linux, TargetArch::X86_64).unwrap();
    assert_eq!(opts.extract_opts, ExtractOptions { skip_base: true, preserve_dir: true });
    assert_eq!(opts.find_version, FindVersion::Any);
    assert!(opts.min_version.is_none());
    assert!(opts.dest.is_none());
}

#[test]
fn sass_include_files() {
    assert_eq!(assert_include_files::<Sass>(TargetOs::Windows), Ok(()));
    assert_eq!(binary_include_path::<Sass>(TargetOs::Windows), "sass.bat");
    assert_eq!(binary_include_path::<Sass>(TargetOs::Linux), "sass");
    assert_eq!(binary_include_path::<NodeJs>(TargetOs::Linux), "node");
}

#[test]
fn tailwind_facts_and_urls() {
    assert_eq!(TailwindCss::binary_name(TargetOs::Windows), "tailwindcss.exe");
    assert_eq!(TailwindCss::test_version_args(), vec!["--help"]);
    let help = "\n  tailwindcss v3.3.1\n\n  Usage:\n    tailwindcss build [options]\n";
    assert_eq!(TailwindCss::parse_version(help), Ok(Version::new(3, 3, Some(1))));
    assert_eq!(TailwindCss::parse_version("\n \n"), Err(ToolError::MalformedVersionOutput));
    assert_eq!(TailwindCss::parse_version("tailwindcss"), Err(ToolError::MalformedVersionOutput));
    assert_eq!(TailwindCss::parse_version("tailwindcss 3.3.1"), Err(ToolError::MalformedVersionOutput));
    let v = TailwindCss::default_version();
    assert_eq!(
        tailwindcss::get_download_url(&v, TargetOs::Windows, TargetArch::X86_64).unwrap(),
        "https://github.com/tailwindlabs/tailwindcss/releases/download/v3.3.1/tailwindcss-windows-x64.exe"
    );
    assert_eq!(
        tailwindcss::get_download_url(&v, TargetOs::Linux, TargetArch::Aarch64).unwrap(),
        "https://github.com/tailwindlabs/tailwindcss/releases/download/v3.3.1/tailwindcss-linux-arm64"
    );
    let opts = TailwindCss::install_options(no_options(), TargetOs::MacOs, TargetArch::X86_64).unwrap();
    assert_eq!(
        opts.url,
        "https://github.com/tailwindlabs/tailwindcss/releases/download/v3.3.1/tailwindcss-macos-x64"
    );
    assert_eq!(opts.extract_opts, ExtractOptions { skip_base: false, preserve_dir: false });
}

#[test]
fn wasm_bindgen_facts_and_urls() {
    assert_eq!(WasmBindgen::name(), "wasm-bindgen");
    assert_eq!(WasmBindgen::parse_version("wasm-bindgen 0.2.84\n"), Ok(Version::new(0, 2, Some(84))));
    assert_eq!(WasmBindgen::parse_version("wasm-bindgen"), Err(ToolError::MalformedVersionOutput));
    let v = WasmBindgen::default_version();
    assert_eq!(
        wasm_bindgen::get_download_url(&v, TargetOs::Linux).unwrap(),
        "https://github.com/rustwasm/wasm-bindgen/releases/download/0.2.84/wasm-bindgen-0.2.84-x86_64-unknown-linux-musl.tar.gz"
    );
    assert_eq!(
        wasm_bindgen::get_download_url(&v, TargetOs::Windows).unwrap(),
        "https://github.com/rustwasm/wasm-bindgen/releases/download/0.2.84/wasm-bindgen-0.2.84-x86_64-pc-windows-msvc.tar.gz"
    );
    assert_eq!(wasm_bindgen::get_download_url(&v, TargetOs::OtherUnix), Err(ToolError::UnsupportedOs));
    let asked = LoadOptions { version: Some(Version::new(0, 2, Some(86))), install_dir: Some(rel(&["d"])) };
    let opts = WasmBindgen::install_options(asked, TargetOs::MacOs, TargetArch::Aarch64).unwrap();
    assert_eq!(
        opts.url,
        "https://github.com/rustwasm/wasm-bindgen/releases/download/0.2.86/wasm-bindgen-0.2.86-x86_64-apple-darwin.tar.gz"
    );
    assert_eq!(parts(opts.dest.as_ref().unwrap()), vec!["d"]);
    assert_eq!(opts.extract_opts, ExtractOptions { skip_base: true, preserve_dir: false });
}

#[test]
fn cargo_generate_facts_and_urls() {
    assert_eq!(CargoGenerate::name(), "cargo generate");
    assert_eq!(CargoGenerate::binary_name(TargetOs::Linux), "cargo-generate");
    assert_eq!(
        CargoGenerate::parse_version("cargo generate 0.18.2\n"),
        Ok(Version::new(0, 18, Some(2)))
    );
    assert_eq!(
        CargoGenerate::parse_version("cargo generate-generate 0.18.2"),
        Ok(Version::new(0, 18, Some(2)))
    );
    assert_eq!(CargoGenerate::parse_version("0.18.2"), Err(ToolError::MalformedVersionOutput));
    let v = CargoGenerate::default_version();
    assert_eq!(
        cargo_generate::get_url(v, TargetOs::Linux, TargetArch::Aarch64).unwrap(),
        "https://github.com/cargo-generate/cargo-generate/releases/download/v0.18.2/cargo-generate-v0.18.2-aarch64-unknown-linux-gnu.tar.gz"
    );
    assert_eq!(
        cargo_generate::get_url(v, TargetOs::Windows, TargetArch::X86_64).unwrap(),
        "https://github.com/cargo-generate/cargo-generate/releases/download/v0.18.2/cargo-generate-v0.18.2-x86_64-pc-windows-msvc.tar.gz"
    );
    assert_eq!(
        cargo_generate::get_url(v, TargetOs::Windows, TargetArch::Aarch64),
        Err(ToolError::UnsupportedTarget)
    );
    let asked = LoadOptions { version: Some(Version::new(9, 9, None)), install_dir: None };
    let opts = CargoGenerate::install_options(asked, TargetOs::MacOs, TargetArch::X86_64).unwrap();
    assert!(opts.url.contains("v0.18.2"));
    assert_eq!(opts.min_version, Some(Version::new(0, 18, Some(2))));
}

#[test]
fn parcel_installation() {
    assert_eq!(Parcel::install_package(&no_options()), "parcel@2.8.3");
    let asked = LoadOptions { version: Some(Version::new(2, 9, None)), install_dir: None };
    assert_eq!(Parcel::install_package(&asked), "parcel@2.9");
    let bin = Parcel::installed_binary(&abs(&["proj"]), TargetOs::Windows);
    assert!(bin.absolute);
    assert_eq!(parts(&bin), vec!["proj", "node_modules", ".bin", "parcel.cmd"]);
    assert_eq!(Parcel::parse_version("2.8.3"), Ok(Version::new(2, 8, Some(3))));
}

#[test]
fn extract_options_behavior() {
    assert!(matches!(ExtractOptions { skip_base: true, preserve_dir: false }.behavior(), ExtractBehavior::SkipBasePath));
    assert!(matches!(ExtractOptions::default_options().behavior(), ExtractBehavior::Exact));
}

#[test]
fn tool_error_messages() {
    assert_eq!(ToolError::UnsupportedOs.message(), "unsupported OS");
    assert_eq!(
        ToolError::Version(VersionError::InvalidMinor).message(),
        "invalid `minor` in version string"
    );
}

#[test]
fn tools_read_back_printed_versions() {
    for v in [Version::new(0, 1, None), Version::new(16, 20, Some(0)), Version::new(4294967295, 7, Some(12))] {
        let t = v.to_string();
        assert_eq!(NodeJs::parse_version(&format!("v{t}\n")), Ok(v));
        assert_eq!(Npm::parse_version(&format!("{t}\n")), Ok(v));
        assert_eq!(Npx::parse_version(&format!("{t}\n")), Ok(v));
        assert_eq!(Sass::parse_version(&format!("{t}\n")), Ok(v));
        assert_eq!(Parcel::parse_version(&format!("{t}\n")), Ok(v));
        assert_eq!(WasmBindgen::parse_version(&format!("wasm-bindgen {t}\n")), Ok(v));
        assert_eq!(CargoGenerate::parse_version(&format!("cargo generate {t}\n")), Ok(v));
        assert_eq!(TailwindCss::parse_version(&format!("\ntailwindcss v{t}\n")), Ok(v));
    }
}

#[test]
fn release_archives_are_known_kinds() {
    let node = node_js::get_download_url("16.20.0", TargetOs::Windows, TargetArch::X86_64).unwrap();
    assert_eq!(ArchiveKind::of_path(&node), ArchiveKind::Zip);
    let node = node_js::get_download_url("16.20.0", TargetOs::MacOs, TargetArch::Aarch64).unwrap();
    assert_eq!(ArchiveKind::of_path(&node), ArchiveKind::TarGz);
    let sass = sass::get_download_url(&Sass::default_version(), TargetOs::Linux, TargetArch::Aarch64).unwrap();
    assert_eq!(ArchiveKind::of_path(&sass), ArchiveKind::TarGz);
    let wb = wasm_bindgen::get_download_url(&WasmBindgen::default_version(), TargetOs::MacOs).unwrap();
    assert_eq!(ArchiveKind::of_path(&wb), ArchiveKind::TarGz);
    let cg = cargo_generate::get_url(CargoGenerate::default_version(), TargetOs::Linux, TargetArch::X86_64).unwrap();
    assert_eq!(ArchiveKind::of_path(&cg), ArchiveKind::TarGz);
    let tw = tailwindcss::get_download_url(&TailwindCss::default_version(), TargetOs::Windows, TargetArch::X86_64).unwrap();
    assert_eq!(ArchiveKind::of_path(&tw), ArchiveKind::Plain);
}

#[test]
fn requested_versions() {
    assert_eq!(requested_version::<NodeJs>(&no_options()), Version::new(16, 20, Some(0)));
    let asked = LoadOptions { version: Some(Version::new(20, 0, Some(0))), install_dir: None };
    assert_eq!(requested_version::<NodeJs>(&asked), Version::new(20, 0, Some(0)));
}
