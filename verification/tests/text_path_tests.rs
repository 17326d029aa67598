use hashira_cli::path::{last_component, split_file_name, FsPath};
use hashira_cli::platform::{arch_name, os_name, TargetArch, TargetOs};
use hashira_cli::text::{
    ends_with_str, lowercase_eq, parse_u32_str, split_str, strip_prefix_str, trim_str,
};

fn rel(parts: &[&str]) -> FsPath {
    FsPath { absolute: false, parts: parts.iter().map(|s| s.to_string()).collect() }
}

fn abs(parts: &[&str]) -> FsPath {
    FsPath { absolute: true, parts: parts.iter().map(|s| s.to_string()).collect() }
}

fn parts(p: &FsPath) -> Vec<&str> {
    p.parts.iter().map(|s| s.as_str()).collect()
}

#[test]
fn trim_removes_whitespace_at_both_ends() {
    assert_eq!(trim_str("  v16.20.0\r\n"), "v16.20.0");
    assert_eq!(trim_str(" \t "), "");
    assert_eq!(trim_str("a b"), "a b");
}

#[test]
fn split_keeps_empty_pieces() {
    assert_eq!(split_str("a..b", '.'), vec!["a", "", "b"]);
    assert_eq!(split_str("", '.'), vec![""]);
    assert_eq!(split_str("x.", '.'), vec!["x", ""]);
}

#[test]
fn parse_u32_accepts_digits_and_plus() {
    assert_eq!(parse_u32_str("0"), Some(0));
    assert_eq!(parse_u32_str("+42"), Some(42));
    assert_eq!(parse_u32_str("4294967295"), Some(4294967295));
    assert_eq!(parse_u32_str("4294967296"), None);
    assert_eq!(parse_u32_str(""), None);
    assert_eq!(parse_u32_str("+"), None);
    assert_eq!(parse_u32_str("-1"), None);
    assert_eq!(parse_u32_str("1 "), None);
}

#[test]
fn prefix_and_suffix() {
    assert_eq!(strip_prefix_str("v3.3.1", "v"), Some("3.3.1"));
    assert_eq!(strip_prefix_str("3.3.1", "v"), None);
    assert!(ends_with_str("file.tar.gz", ".tar.gz"));
    assert!(!ends_with_str("gz", ".tar.gz"));
}

#[test]
fn lowercase_comparison() {
    assert!(lowercase_eq("DeBuG", "debug"));
    assert!(!lowercase_eq("debugs", "debug"));
    assert!(!lowercase_eq("DÉBUG", "débug"));
}

#[test]
fn join_relative_and_absolute() {
    let base = abs(&["home", "user"]);
    let joined = base.join(&rel(&["target", "debug"]));
    assert!(joined.absolute);
    assert_eq!(parts(&joined), vec!["home", "user", "target", "debug"]);
    let other = base.join(&abs(&["tmp"]));
    assert!(other.absolute);
    assert_eq!(parts(&other), vec!["tmp"]);
}

#[test]
fn file_name_and_parent() {
    let p = rel(&["dir", "file.txt"]);
    assert_eq!(p.file_name(), Some("file.txt".to_string()));
    assert_eq!(parts(&p.parent().unwrap()), vec!["dir"]);
    assert_eq!(rel(&["dir", ".."]).file_name(), None);
    assert_eq!(rel(&[]).file_name(), None);
    assert!(rel(&[]).parent().is_none());
}

#[test]
fn strip_prefix_of_paths() {
    let p = abs(&["a", "b", "c"]);
    let r = p.strip_prefix(&abs(&["a"])).unwrap();
    assert!(!r.absolute);
    assert_eq!(parts(&r), vec!["b", "c"]);
    assert!(p.strip_prefix(&abs(&["b"])).is_none());
    assert!(p.strip_prefix(&rel(&["a"])).is_none());
    assert!(p.starts_with(&abs(&["a", "b"])));
}

#[test]
fn stem_and_extension() {
    assert_eq!(split_file_name("archive.tar.gz"), ("archive.tar", Some("gz")));
    assert_eq!(split_file_name(".bashrc"), (".bashrc", None));
    assert_eq!(split_file_name("app"), ("app", None));
    let p = rel(&["target", "app.exe"]);
    assert_eq!(p.file_stem(), Some("app".to_string()));
    assert_eq!(p.extension(), Some("exe".to_string()));
    let q = p.with_file_name("other.exe");
    assert_eq!(parts(&q), vec!["target", "other.exe"]);
}

#[test]
fn last_component_of_texts() {
    assert_eq!(last_component("src/dart.exe"), Some("dart.exe".to_string()));
    assert_eq!(last_component("sass"), Some("sass".to_string()));
    assert_eq!(last_component("a/b/"), Some("b".to_string()));
    assert_eq!(last_component("a/."), Some("a".to_string()));
    assert_eq!(last_component("./"), Some(".".to_string()));
    assert_eq!(last_component("/"), Some("/".to_string()));
    assert_eq!(last_component("a/.."), Some("..".to_string()));
    assert_eq!(last_component(""), None);
}

#[test]
fn platform_names() {
    assert_eq!(os_name(TargetOs::Windows), "windows");
    assert_eq!(os_name(TargetOs::MacOs), "macos");
    assert_eq!(os_name(TargetOs::Linux), "linux");
    assert_eq!(arch_name(TargetArch::X86_64), "x86_64");
    assert_eq!(arch_name(TargetArch::Aarch64), "aarch64");
}

#[test]
fn relative_part_of_a_joined_path() {
    let base = abs(&["home", "user"]);
    let joined = base.join(&rel(&["proj", "src"]));
    let back = joined.strip_prefix(&base).unwrap();
    assert!(!back.absolute);
    assert_eq!(parts(&back), vec!["proj", "src"]);
}
