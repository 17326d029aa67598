//! wasm-bindgen, which binds the WebAssembly of the client to JavaScript.
use vstd::prelude::*;
use crate::path::{FsPath, PathView};
use crate::platform::{TargetArch, TargetOs};
use crate::text::{split, split_str, trim, trim_str};
use crate::tools::archive::{lemma_kind_tar_gz, spec_archive_kind, ArchiveKind, ExtractOptions};
use crate::tools::global_cache::{FindVersion, InstallToolOptions};
use crate::tools::{
    lift_version, lift_version_result, text_result, LoadOptions, Tool, ToolError,
};
use crate::version::Version;

use crate::text::{lemma_digits_and_dots_plain, lemma_trim_line, lemma_trim_plain};
use crate::version::{lemma_version_string_roundtrip, lemma_version_text};
use crate::text::{lemma_split_plain, lemma_split_then};
verus! {

/// The wasm-bindgen command line tool, by the path of its executable.
#[derive(Debug)]
pub struct WasmBindgen(FsPath);

impl WasmBindgen {
    /// The tool found at the given executable.
    pub fn new(binary: FsPath) -> (r: WasmBindgen)
        ensures
            r.spec_binary_path() == binary@,
    {
        WasmBindgen(binary)
    }

    /// How wasm-bindgen is installed for the given options: the version
    /// asked for or the default one, from its release archive, skipping the
    /// archive's top directory. The architecture plays no part: the
    /// releases taken are those for x86_64.
    pub fn install_options(opts: LoadOptions, os: TargetOs, arch: TargetArch) -> (r: Result<
        InstallToolOptions,
        ToolError,
    >)
        ensures
            ({
                let v = match opts.version {
                    Some(v) => v,
                    None => Self::spec_default_version(),
                };
                match spec_download_url(v.spec_to_string(), os) {
                    Err(e) => r matches Err(x) && x == e,
                    Ok(u) => r matches Ok(o) && {
                        &&& o.url@ == u
                        &&& o.dest == opts.install_dir
                        &&& o.extract_opts == ExtractOptions { skip_base: true, preserve_dir: false }
                        &&& o.find_version == FindVersion::Any
                        &&& o.min_version is None
                    },
                }
            }),
    {
        let version = match opts.version {
            Some(v) => v,
            None => Self::default_version(),
        };
        let url = match get_download_url(&version, os) {
            Ok(u) => u,
            Err(e) => {
                return Err(e);
            },
        };
        let extract_opts = ExtractOptions { skip_base: true, preserve_dir: false };
        Ok(
            InstallToolOptions {
                url,
                dest: opts.install_dir,
                extract_opts,
                find_version: FindVersion::Any,
                min_version: None,
            },
        )
    }
}

impl Tool for WasmBindgen {
    open spec fn spec_name() -> Seq<char> {
        "wasm-bindgen"@
    }

    open spec fn spec_binary_name(os: TargetOs) -> Seq<char> {
        if os == TargetOs::Windows {
            "wasm-bindgen.exe"@
        } else {
            "wasm-bindgen"@
        }
    }

    open spec fn spec_default_version() -> Version {
        Version::make(0, 2, Some(84))
    }

    open spec fn spec_test_version_args() -> Seq<Seq<char>> {
        seq!["--version"@]
    }

    open spec fn parse_version_accepts(s: Seq<char>) -> bool {
        true
    }

    /// The output reads `wasm-bindgen 0.0.0`: the second word is the version.
    open spec fn spec_parse_version(s: Seq<char>) -> Result<Version, ToolError> {
        let words = split(trim(s), ' ');
        if words.len() < 2 {
            Err(ToolError::MalformedVersionOutput)
        } else {
            lift_version(Version::spec_from_str(words[1]))
        }
    }

    open spec fn spec_included_files(os: TargetOs) -> Seq<Seq<char>> {
        Seq::empty()
    }

    closed spec fn spec_binary_path(&self) -> PathView {
        self.0@
    }

    fn name() -> (r: &'static str) {
        "wasm-bindgen"
    }

    fn binary_name(os: TargetOs) -> (r: &'static str) {
        proof {
            reveal_strlit("wasm-bindgen.exe");
            reveal_strlit("wasm-bindgen");
            assert("wasm-bindgen.exe"@ =~= seq![
                'w', 'a', 's', 'm', '-', 'b', 'i', 'n', 'd', 'g', 'e', 'n', '.', 'e', 'x', 'e',
            ]);
            assert("wasm-bindgen"@ =~= seq!['w', 'a', 's', 'm', '-', 'b', 'i', 'n', 'd', 'g', 'e', 'n']);
        }
        if os == TargetOs::Windows {
            "wasm-bindgen.exe"
        } else {
            "wasm-bindgen"
        }
    }

    fn default_version() -> (r: Version) {
        Version::new(0, 2, Some(84))
    }

    fn test_version_args() -> (r: Vec<&'static str>) {
        let r = vec!["--version"];
        assert(r@.map_values(|a: &str| a@) =~= seq!["--version"@]);
        r
    }

    fn can_parse_version(s: &str) -> (r: bool) {
        true
    }

    fn parse_version(s: &str) -> (r: Result<Version, ToolError>) {
        let words = split_str(trim_str(s), ' ');
        if words.len() < 2 {
            return Err(ToolError::MalformedVersionOutput);
        }
        lift_version_result(Version::from_str(words[1]))
    }

    fn included_files(os: TargetOs) -> (r: Vec<&'static str>) {
        let r: Vec<&'static str> = Vec::new();
        assert(r@.map_values(|a: &str| a@) =~= Seq::<Seq<char>>::empty());
        r
    }

    fn binary_path(&self) -> (r: &FsPath) {
        &self.0
    }
}

/// The target triple of the release for a system.
pub open spec fn spec_release_target(os: TargetOs) -> Seq<char> {
    match os {
        TargetOs::Windows => "pc-windows-msvc"@,
        TargetOs::MacOs => "apple-darwin"@,
        _ => "unknown-linux-musl"@,
    }
}

/// Where a wasm-bindgen release is published: the x86_64 build for the
/// system.
pub open spec fn spec_download_url(version: Seq<char>, os: TargetOs) -> Result<
    Seq<char>,
    ToolError,
> {
    if !(os == TargetOs::Windows || os == TargetOs::MacOs || os == TargetOs::Linux) {
        Err(ToolError::UnsupportedOs)
    } else {
        Ok(
            "https://github.com/rustwasm/wasm-bindgen/releases/download/"@ + version
                + "/wasm-bindgen-"@ + version + "-x86_64-"@ + spec_release_target(os)
                + ".tar.gz"@,
        )
    }
}

/// The address of the wasm-bindgen release of a version for a system.
pub fn get_download_url(version: &Version, os: TargetOs) -> (r: Result<String, ToolError>)
    ensures
        text_result(r) == spec_download_url(version.spec_to_string(), os),
{
    let target = match os {
        TargetOs::Windows => "pc-windows-msvc",
        TargetOs::MacOs => "apple-darwin",
        TargetOs::Linux => "unknown-linux-musl",
        _ => {
            return Err(ToolError::UnsupportedOs);
        },
    };
    let v = version.to_string();
    let mut s = String::from_str("https://github.com/rustwasm/wasm-bindgen/releases/download/");
    s.append(v.as_str());
    s.append("/wasm-bindgen-");
    s.append(v.as_str());
    s.append("-x86_64-");
    s.append(target);
    s.append(".tar.gz");
    Ok(s)
}

/// The wasm-bindgen releases are gzip compressed tar archives.
pub proof fn lemma_release_archive(version: Seq<char>, os: TargetOs)
    requires
        spec_download_url(version, os) is Ok,
    ensures
        spec_archive_kind(spec_download_url(version, os)->Ok_0) == ArchiveKind::TarGz,
{
    lemma_kind_tar_gz(
        "https://github.com/rustwasm/wasm-bindgen/releases/download/"@ + version
            + "/wasm-bindgen-"@ + version + "-x86_64-"@ + spec_release_target(os),
    );
}

/// wasm-bindgen reads back the version it prints: `wasm-bindgen` and the
/// version on a line.
pub proof fn lemma_reads_printed_version(v: Version)
    ensures
        WasmBindgen::spec_parse_version("wasm-bindgen "@ + v.spec_to_string() + seq!['\n'])
            == Ok::<Version, ToolError>(v),
{
    reveal_strlit("wasm-bindgen ");
    reveal_strlit("wasm-bindgen");
    let x = "wasm-bindgen"@;
    assert(x =~= seq!['w', 'a', 's', 'm', '-', 'b', 'i', 'n', 'd', 'g', 'e', 'n']);
    assert("wasm-bindgen "@ =~= x + seq![' ']);
    lemma_version_text(v);
    let t = v.spec_to_string();
    lemma_digits_and_dots_plain(t);
    let s = "wasm-bindgen "@ + t;
    assert(s =~= x + seq![' '] + t);
    assert(s[0] == 'w');
    assert(s.last() == t.last());
    lemma_trim_line(s);
    lemma_split_plain(x, ' ');
    lemma_split_then(x, t, ' ');
    lemma_version_string_roundtrip(v);
}

} // verus!
