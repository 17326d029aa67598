use hashira_cli::path::FsPath;
use hashira_cli::platform::TargetOs;
use hashira_cli::tools::archive::{entry_matches, ArchiveKind, Decompressor, DecompressError, ExtractBehavior};
use hashira_cli::tools::global_cache::{
    next_load_step, usable_system_path, FindVersion, GlobalCache, GlobalCacheError, InstallPlace,
    LoadEvent, LoadStep, SearchNext,
};
use hashira_cli::tools::node_js::NodeJs;
use hashira_cli::tools::sass::Sass;
use hashira_cli::tools::wasm_bindgen::WasmBindgen;
use hashira_cli::version::Version;

fn rel(parts: &[&str]) -> FsPath {
    FsPath { absolute: false, parts: parts.iter().map(|s| s.to_string()).collect() }
}

fn abs(parts: &[&str]) -> FsPath {
    FsPath { absolute: true, parts: parts.iter().map(|s| s.to_string()).collect() }
}

fn parts(p: &FsPath) -> Vec<&str> {
    p.parts.iter().map(|s| s.as_str()).collect()
}

#[test]
fn cache_read_after_write() {
    let mut cache = GlobalCache::new();
    assert!(cache.get("node").is_none());
    cache.insert("node".to_string(), abs(&["a", "node"]));
    cache.insert("sass".to_string(), abs(&["b", "sass"]));
    cache.insert("node".to_string(), abs(&["c", "node"]));
    assert_eq!(parts(&cache.get("node").unwrap()), vec!["c", "node"]);
    assert_eq!(parts(&cache.get("sass").unwrap()), vec!["b", "sass"]);
    assert!(cache.get("npm").is_none());
}

#[test]
fn cache_find_order() {
    let dir = abs(&["cache"]);
    let mut cache = GlobalCache::new();
    match cache.find::<NodeJs>(TargetOs::Linux, &dir, false) {
        Err(GlobalCacheError::NotFound(b)) => assert_eq!(b, "node"),
        other => panic!("unexpected {other:?}"),
    }
    assert!(cache.get("node").is_none());
    let found = cache.find::<NodeJs>(TargetOs::Linux, &dir, true).unwrap();
    assert_eq!(parts(&found), vec!["cache", "node"]);
    assert_eq!(parts(&cache.get("node").unwrap()), vec!["cache", "node"]);
    let again = cache.find::<NodeJs>(TargetOs::Linux, &abs(&["elsewhere"]), false).unwrap();
    assert_eq!(parts(&again), vec!["cache", "node"]);
    assert_eq!(parts(&GlobalCache::cache_candidate::<Sass>(&dir, TargetOs::Windows)), vec!["cache", "sass.bat"]);
}

#[test]
fn find_any_tries_the_system_then_the_cache() {
    let mut cache = GlobalCache::new();
    let sys = Some((abs(&["usr", "bin", "node"]), Ok(Version::new(18, 1, Some(0)))));
    let p = cache
        .find_any::<NodeJs>(TargetOs::Linux, sys, FindVersion::Any, Ok(abs(&["cache"])), true)
        .unwrap();
    assert_eq!(parts(&p), vec!["usr", "bin", "node"]);

    let mut cache = GlobalCache::new();
    let p = cache
        .find_any::<NodeJs>(TargetOs::Linux, None, FindVersion::Any, Ok(abs(&["cache"])), true)
        .unwrap();
    assert_eq!(parts(&p), vec!["cache", "node"]);
    assert_eq!(parts(&cache.get("node").unwrap()), vec!["cache", "node"]);

    let mut cache = GlobalCache::new();
    match cache.find_any::<NodeJs>(TargetOs::Linux, None, FindVersion::Any, Ok(abs(&["cache"])), false) {
        Err(GlobalCacheError::NotFound(b)) => assert_eq!(b, "node"),
        other => panic!("unexpected {other:?}"),
    }
    match cache.find_any::<NodeJs>(TargetOs::Linux, None, FindVersion::Any, Err("no home".to_string()), false) {
        Err(GlobalCacheError::Other(m)) => assert_eq!(m, "no home"),
        other => panic!("unexpected {other:?}"),
    }
    let sys = Some((abs(&["usr", "bin", "node"]), Ok(Version::new(18, 1, Some(0)))));
    match cache.find_any::<NodeJs>(TargetOs::Linux, sys, FindVersion::Exact, Ok(abs(&["cache"])), true) {
        Err(GlobalCacheError::InvalidVersion { .. }) => {}
        other => panic!("unexpected {other:?}"),
    }
    assert!(cache.get("node").is_none());
}

#[test]
fn system_search_decisions() {
    let mut cache = GlobalCache::new();
    match cache.find_in_system::<NodeJs>(TargetOs::Linux, None, FindVersion::Any) {
        Err(GlobalCacheError::NotFound(b)) => assert_eq!(b, "node"),
        other => panic!("unexpected {other:?}"),
    }
    match cache.find_in_system::<NodeJs>(
        TargetOs::Linux,
        Some((abs(&["usr", "bin", "node"]), Err("failed to run".to_string()))),
        FindVersion::Any,
    ) {
        Err(GlobalCacheError::Other(m)) => assert_eq!(m, "failed to run"),
        other => panic!("unexpected {other:?}"),
    }
    match cache.find_in_system::<NodeJs>(
        TargetOs::Linux,
        Some((abs(&["usr", "bin", "node"]), Ok(Version::new(18, 1, Some(0))))),
        FindVersion::Exact,
    ) {
        Err(e @ GlobalCacheError::InvalidVersion { .. }) => {
            assert_eq!(e.message(), "expected version 16.20.0 but was 18.1.0");
        }
        other => panic!("unexpected {other:?}"),
    }
    assert!(cache.get("node").is_none());
    let (p, v) = cache
        .find_in_system::<NodeJs>(
            TargetOs::Linux,
            Some((abs(&["usr", "bin", "node"]), Ok(Version::new(18, 1, Some(0))))),
            FindVersion::Any,
        )
        .unwrap();
    assert_eq!(parts(&p), vec!["usr", "bin", "node"]);
    assert_eq!(v, Version::new(18, 1, Some(0)));
    assert_eq!(parts(&cache.get("node").unwrap()), vec!["usr", "bin", "node"]);
    let exact = cache.find_in_system::<NodeJs>(
        TargetOs::Linux,
        Some((abs(&["opt", "node"]), Ok(Version::new(16, 20, Some(0))))),
        FindVersion::Exact,
    );
    assert!(exact.is_ok());
}

#[test]
fn search_continuations() {
    assert!(matches!(
        GlobalCache::after_system_search(Err(GlobalCacheError::NotFound("x".to_string()))),
        SearchNext::Fallback
    ));
    assert!(matches!(
        GlobalCache::after_system_search(Err(GlobalCacheError::Other("boom".to_string()))),
        SearchNext::Fail(GlobalCacheError::Other(_))
    ));
}

#[test]
fn load_steps() {
    match next_load_step(LoadEvent::Start(Some(rel(&["tools"])))) {
        LoadStep::Install(InstallPlace::Dir(d)) => assert_eq!(parts(&d), vec!["tools"]),
        other => panic!("unexpected {other:?}"),
    }
    assert!(matches!(next_load_step(LoadEvent::Start(None)), LoadStep::SearchSystem));
    match next_load_step(LoadEvent::SystemChecked(Some(abs(&["usr", "bin", "node"])))) {
        LoadStep::Use(p) => assert_eq!(parts(&p), vec!["usr", "bin", "node"]),
        other => panic!("unexpected {other:?}"),
    }
    assert!(matches!(next_load_step(LoadEvent::SystemChecked(None)), LoadStep::SearchCache));
    match next_load_step(LoadEvent::Searched(Ok(rel(&["bin"])))) {
        LoadStep::Use(p) => assert_eq!(parts(&p), vec!["bin"]),
        other => panic!("unexpected {other:?}"),
    }
    assert!(matches!(
        next_load_step(LoadEvent::Searched(Err(GlobalCacheError::NotFound("x".to_string())))),
        LoadStep::Install(InstallPlace::Cache)
    ));
    assert!(matches!(
        next_load_step(LoadEvent::Searched(Err(GlobalCacheError::Other("boom".to_string())))),
        LoadStep::Fail(GlobalCacheError::Other(_))
    ));
    let found = Ok((abs(&["bin", "node"]), Version::new(16, 20, Some(0))));
    assert_eq!(parts(&usable_system_path(found, true).unwrap()), vec!["bin", "node"]);
    let found = Ok((abs(&["bin", "node"]), Version::new(16, 20, Some(0))));
    assert!(usable_system_path(found, false).is_none());
    assert!(usable_system_path(Err(GlobalCacheError::NotFound("node".to_string())), true).is_none());
}

#[test]
fn system_binary_needs_a_least_version() {
    let found = Ok((abs(&["bin", "cargo-generate"]), Version::new(0, 18, Some(2))));
    assert!(GlobalCache::system_binary_usable(&found, &Some(Version::new(0, 18, Some(2)))));
    assert!(!GlobalCache::system_binary_usable(&found, &Some(Version::new(0, 19, None))));
    assert!(!GlobalCache::system_binary_usable(&found, &None));
    let missing = Err(GlobalCacheError::NotFound("x".to_string()));
    assert!(!GlobalCache::system_binary_usable(&missing, &Some(Version::new(0, 1, None))));
}

#[test]
fn download_targets_and_binary() {
    assert_eq!(GlobalCache::download_targets::<WasmBindgen>(TargetOs::Linux).unwrap(), vec!["wasm-bindgen"]);
    assert_eq!(
        GlobalCache::download_targets::<Sass>(TargetOs::Windows).unwrap(),
        vec!["sass.bat", "src/dart.exe", "src/sass.snapshot"]
    );
    let bin = GlobalCache::downloaded_binary::<Sass>(&abs(&["cache"]), TargetOs::Linux);
    assert_eq!(parts(&bin), vec!["cache", "sass"]);
}

#[test]
fn cache_error_texts() {
    assert_eq!(GlobalCacheError::NotFound("node".to_string()).message(), "the binary node was not found");
    assert_eq!(GlobalCacheError::new("x".to_string()).message(), "x");
    assert_eq!(GlobalCacheError::from_anyhow("y".to_string()).message(), "y");
}

#[test]
fn archive_kinds() {
    assert_eq!(ArchiveKind::of_path("/tmp/node-v16.20.0-linux-x64.tar.gz"), ArchiveKind::TarGz);
    assert_eq!(ArchiveKind::of_path("dart-sass-1.62.0-windows-x64.zip"), ArchiveKind::Zip);
    assert_eq!(ArchiveKind::of_path("tailwindcss-linux-x64"), ArchiveKind::Plain);
}

#[test]
fn decompressor_by_ending() {
    assert!(matches!(Decompressor::get(rel(&["a.tar.gz"]), false, Some("a.tar.gz")), Err(DecompressError::NotFound)));
    assert!(matches!(Decompressor::get(rel(&["a.tar.gz"]), true, None), Err(DecompressError::InvalidPath)));
    assert!(matches!(Decompressor::get(rel(&["a.tar.gz"]), true, Some("a.tar.gz")), Ok(Some(Decompressor::TarGz(_)))));
    assert!(matches!(Decompressor::get(rel(&["a.zip"]), true, Some("a.zip")), Ok(Some(Decompressor::Zip(_)))));
    assert!(matches!(Decompressor::get(rel(&["a.txt"]), true, Some("a.txt")), Ok(None)));
}

#[test]
fn archive_entries() {
    let file = rel(&["node"]);
    assert!(entry_matches(&rel(&["node"]), &file, &ExtractBehavior::Exact));
    assert!(!entry_matches(&rel(&["base", "node"]), &file, &ExtractBehavior::Exact));
    assert!(entry_matches(&rel(&["base", "node"]), &file, &ExtractBehavior::SkipBasePath));
    assert!(!entry_matches(&rel(&["node"]), &file, &ExtractBehavior::SkipBasePath));
    let dir = ExtractBehavior::Dir(rel(&["node-v16.20.0-linux-x64", "bin"]));
    assert!(entry_matches(&rel(&["node-v16.20.0-linux-x64", "bin", "node"]), &file, &dir));
    assert!(!entry_matches(&rel(&["node-v16.20.0-linux-x64", "node"]), &file, &dir));
}

#[test]
fn skipping_the_base_of_absolute_entries() {
    let file = rel(&["a", "node"]);
    assert!(entry_matches(&abs(&["a", "node"]), &file, &ExtractBehavior::SkipBasePath));
    assert!(!entry_matches(&abs(&["a", "node"]), &rel(&["node"]), &ExtractBehavior::SkipBasePath));
}
