//! cargo-generate, which makes new projects from templates.
use vstd::prelude::*;
use crate::path::{FsPath, PathView};
use crate::platform::{arch_name, spec_arch_name, TargetArch, TargetOs};
use crate::text::{strip_prefix, strip_prefix_str, trim, trim_str};
use crate::tools::archive::{lemma_kind_tar_gz, spec_archive_kind, ArchiveKind, ExtractOptions};
use crate::tools::global_cache::{FindVersion, InstallToolOptions};
use crate::tools::{
    lift_version, lift_version_result, text_result, LoadOptions, Tool, ToolError,
};
use crate::version::Version;

use crate::text::{lemma_digits_and_dots_plain, lemma_trim_line, lemma_trim_plain};
use crate::version::{lemma_version_string_roundtrip, lemma_version_text};
verus! {

/// The cargo-generate command, by the path of its executable.
#[derive(Debug)]
pub struct CargoGenerate(FsPath);

impl CargoGenerate {
    /// The command found at the given executable.
    pub fn new(binary: FsPath) -> (r: CargoGenerate)
        ensures
            r.spec_binary_path() == binary@,
    {
        CargoGenerate(binary)
    }

    /// How cargo-generate is installed for the given options: always the
    /// default version, whatever version is asked for, from its release
    /// archive; a system binary of at least the default version is used
    /// in its place.
    pub fn install_options(opts: LoadOptions, os: TargetOs, arch: TargetArch) -> (r: Result<
        InstallToolOptions,
        ToolError,
    >)
        ensures
            match spec_get_url(Self::spec_default_version().spec_to_string(), os, arch) {
                Err(e) => r matches Err(x) && x == e,
                Ok(u) => r matches Ok(o) && {
                    &&& o.url@ == u
                    &&& o.dest == opts.install_dir
                    &&& o.extract_opts == ExtractOptions { skip_base: false, preserve_dir: false }
                    &&& o.find_version == FindVersion::Any
                    &&& o.min_version == Some(Self::spec_default_version())
                },
            },
    {
        let url = match get_url(Self::default_version(), os, arch) {
            Ok(u) => u,
            Err(e) => {
                return Err(e);
            },
        };
        Ok(
            InstallToolOptions {
                url,
                dest: opts.install_dir,
                extract_opts: ExtractOptions::default_options(),
                find_version: FindVersion::Any,
                min_version: Some(Self::default_version()),
            },
        )
    }
}

impl Tool for CargoGenerate {
    open spec fn spec_name() -> Seq<char> {
        "cargo generate"@
    }

    open spec fn spec_binary_name(os: TargetOs) -> Seq<char> {
        if os == TargetOs::Windows {
            "cargo-generate.exe"@
        } else {
            "cargo-generate"@
        }
    }

    open spec fn spec_default_version() -> Version {
        Version::make(0, 18, Some(2))
    }

    open spec fn spec_test_version_args() -> Seq<Seq<char>> {
        seq!["--version"@]
    }

    open spec fn parse_version_accepts(s: Seq<char>) -> bool {
        true
    }

    /// The output reads `cargo generate-generate 0.0.0` or
    /// `cargo generate 0.0.0`; the longer prefix is tried first, so that
    /// both read.
    open spec fn spec_parse_version(s: Seq<char>) -> Result<Version, ToolError> {
        let t = trim(s);
        match strip_prefix(t, "cargo generate-generate"@) {
            Some(rest) => lift_version(Version::spec_from_str(trim(rest))),
            None => match strip_prefix(t, "cargo generate"@) {
                Some(rest) => lift_version(Version::spec_from_str(trim(rest))),
                None => Err(ToolError::MalformedVersionOutput),
            },
        }
    }

    open spec fn spec_included_files(os: TargetOs) -> Seq<Seq<char>> {
        Seq::empty()
    }

    closed spec fn spec_binary_path(&self) -> PathView {
        self.0@
    }

    fn name() -> (r: &'static str) {
        "cargo generate"
    }

    fn binary_name(os: TargetOs) -> (r: &'static str) {
        proof {
            reveal_strlit("cargo-generate.exe");
            reveal_strlit("cargo-generate");
            assert("cargo-generate.exe"@ =~= seq![
                'c', 'a', 'r', 'g', 'o', '-', 'g', 'e', 'n', 'e', 'r', 'a', 't', 'e', '.', 'e', 'x', 'e',
            ]);
            assert("cargo-generate"@ =~= seq![
                'c', 'a', 'r', 'g', 'o', '-', 'g', 'e', 'n', 'e', 'r', 'a', 't', 'e',
            ]);
        }
        if os == TargetOs::Windows {
            "cargo-generate.exe"
        } else {
            "cargo-generate"
        }
    }

    fn default_version() -> (r: Version) {
        Version::new(0, 18, Some(2))
    }

    fn test_version_args() -> (r: Vec<&'static str>) {
        let r = vec!["--version"];
        assert(r@.map_values(|a: &str| a@) =~= seq!["--version"@]);
        r
    }

    fn can_parse_version(s: &str) -> (r: bool) {
        true
    }

    fn parse_version(s: &str) -> (r: Result<Version, ToolError>) {
        let t = trim_str(s);
        if let Some(rest) = strip_prefix_str(t, "cargo generate-generate") {
            return lift_version_result(Version::from_str(trim_str(rest)));
        }
        if let Some(rest) = strip_prefix_str(t, "cargo generate") {
            return lift_version_result(Version::from_str(trim_str(rest)));
        }
        Err(ToolError::MalformedVersionOutput)
    }

    fn included_files(os: TargetOs) -> (r: Vec<&'static str>) {
        let r: Vec<&'static str> = Vec::new();
        assert(r@.map_values(|a: &str| a@) =~= Seq::<Seq<char>>::empty());
        r
    }

    fn binary_path(&self) -> (r: &FsPath) {
        &self.0
    }
}

/// The system part of the release's target triple.
pub open spec fn spec_release_system(os: TargetOs) -> Seq<char> {
    match os {
        TargetOs::Windows => "pc-windows-msvc"@,
        TargetOs::MacOs => "apple-darwin"@,
        _ => "unknown-linux-gnu"@,
    }
}

/// Where a cargo-generate release is published.
pub open spec fn spec_get_url(version: Seq<char>, os: TargetOs, arch: TargetArch) -> Result<
    Seq<char>,
    ToolError,
> {
    if !(os == TargetOs::Windows || os == TargetOs::MacOs || os == TargetOs::Linux) {
        Err(ToolError::UnsupportedOs)
    } else if arch == TargetArch::Other {
        Err(ToolError::UnsupportedArch)
    } else if os == TargetOs::Windows && arch != TargetArch::X86_64 {
        Err(ToolError::UnsupportedTarget)
    } else {
        Ok(
            "https://github.com/cargo-generate/cargo-generate/releases/download/v"@ + version
                + "/cargo-generate-v"@ + version + "-"@ + spec_arch_name(arch) + "-"@
                + spec_release_system(os) + ".tar.gz"@,
        )
    }
}

/// The address of the cargo-generate release of a version for a system.
pub fn get_url(version: Version, os: TargetOs, arch: TargetArch) -> (r: Result<String, ToolError>)
    ensures
        text_result(r) == spec_get_url(version.spec_to_string(), os, arch),
{
    if !(os == TargetOs::Windows || os == TargetOs::MacOs || os == TargetOs::Linux) {
        return Err(ToolError::UnsupportedOs);
    }
    if arch == TargetArch::Other {
        return Err(ToolError::UnsupportedArch);
    }
    if os == TargetOs::Windows && arch != TargetArch::X86_64 {
        return Err(ToolError::UnsupportedTarget);
    }
    let system = match os {
        TargetOs::Windows => "pc-windows-msvc",
        TargetOs::MacOs => "apple-darwin",
        _ => "unknown-linux-gnu",
    };
    let v = version.to_string();
    let mut s = String::from_str("https://github.com/cargo-generate/cargo-generate/releases/download/v");
    s.append(v.as_str());
    s.append("/cargo-generate-v");
    s.append(v.as_str());
    s.append("-");
    s.append(arch_name(arch));
    s.append("-");
    s.append(system);
    s.append(".tar.gz");
    Ok(s)
}

/// The cargo-generate releases are gzip compressed tar archives.
pub proof fn lemma_release_archive(version: Seq<char>, os: TargetOs, arch: TargetArch)
    requires
        spec_get_url(version, os, arch) is Ok,
    ensures
        spec_archive_kind(spec_get_url(version, os, arch)->Ok_0) == ArchiveKind::TarGz,
{
    lemma_kind_tar_gz(
        "https://github.com/cargo-generate/cargo-generate/releases/download/v"@ + version
            + "/cargo-generate-v"@ + version + "-"@ + spec_arch_name(arch) + "-"@
            + spec_release_system(os),
    );
}

/// cargo-generate reads back the version it prints: `cargo generate` and
/// the version on a line.
pub proof fn lemma_reads_printed_version(v: Version)
    ensures
        CargoGenerate::spec_parse_version("cargo generate "@ + v.spec_to_string() + seq!['\n'])
            == Ok::<Version, ToolError>(v),
{
    reveal_strlit("cargo generate ");
    reveal_strlit("cargo generate");
    reveal_strlit("cargo generate-generate");
    let x = "cargo generate"@;
    assert(x =~= seq!['c', 'a', 'r', 'g', 'o', ' ', 'g', 'e', 'n', 'e', 'r', 'a', 't', 'e']);
    assert("cargo generate "@ =~= x + seq![' ']);
    lemma_version_text(v);
    let t = v.spec_to_string();
    lemma_digits_and_dots_plain(t);
    let s = "cargo generate "@ + t;
    assert(s[0] == 'c');
    assert(s.last() == t.last());
    lemma_trim_line(s);
    assert(s.take(x.len() as int) =~= x);
    assert(s.skip(x.len() as int) =~= seq![' '] + t);
    assert(strip_prefix(s, "cargo generate-generate"@) is None) by {
        let y = "cargo generate-generate"@;
        assert(y[14] == '-');
        assert(s[14] == ' ');
        if s.len() >= y.len() && s.take(y.len() as int) == y {
            assert(s.take(y.len() as int)[14] == s[14]);
        }
    }
    let r = seq![' '] + t;
    assert(r.drop_first() =~= t);
    lemma_trim_plain(t);
    lemma_version_string_roundtrip(v);
}

/// The output `cargo generate-generate {version}` reads as that version too.
pub proof fn lemma_reads_dashed_version(v: Version)
    ensures
        CargoGenerate::spec_parse_version(
            "cargo generate-generate "@ + v.spec_to_string() + seq!['\n'],
        ) == Ok::<Version, ToolError>(v),
{
    reveal_strlit("cargo generate-generate ");
    reveal_strlit("cargo generate-generate");
    let x = "cargo generate-generate"@;
    assert("cargo generate-generate "@ =~= x + seq![' ']);
    lemma_version_text(v);
    let t = v.spec_to_string();
    lemma_digits_and_dots_plain(t);
    let s = "cargo generate-generate "@ + t;
    assert(s[0] == 'c');
    assert(s.last() == t.last());
    lemma_trim_line(s);
    assert(s.take(x.len() as int) =~= x);
    assert(s.skip(x.len() as int) =~= seq![' '] + t);
    let r = seq![' '] + t;
    assert(r.drop_first() =~= t);
    lemma_trim_plain(t);
    lemma_version_string_roundtrip(v);
}

} // verus!
