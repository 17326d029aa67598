//! Sass, the stylesheet compiler, as published by the dart-sass project.
use vstd::prelude::*;
use crate::path::{FsPath, PathView};
use crate::platform::{os_name, spec_os_name, TargetArch, TargetOs};
use crate::text::{trim, trim_str};
use crate::tools::archive::{
    lemma_kind_tar_gz_tail, lemma_kind_zip_tail, spec_archive_kind, ArchiveKind, ExtractOptions,
};
use crate::tools::global_cache::{FindVersion, InstallToolOptions};
use crate::tools::{
    lift_version, lift_version_result, text_result, LoadOptions, Tool, ToolError,
};
use crate::version::Version;

use crate::text::{lemma_digits_and_dots_plain, lemma_trim_line, lemma_trim_plain};
use crate::version::{lemma_version_string_roundtrip, lemma_version_text};
verus! {

/// The Sass compiler, by the path of its launcher.
#[derive(Debug)]
pub struct Sass(FsPath);

impl Sass {
    /// The compiler found at the given launcher.
    pub fn new(binary: FsPath) -> (r: Sass)
        ensures
            r.spec_binary_path() == binary@,
    {
        Sass(binary)
    }

    /// How Sass is installed for the given options: the version asked for
    /// or the default one, from its release archive, keeping the archive's
    /// directories below its top one.
    pub fn install_options(opts: LoadOptions, os: TargetOs, arch: TargetArch) -> (r: Result<
        InstallToolOptions,
        ToolError,
    >)
        ensures
            ({
                let v = match opts.version {
                    Some(v) => v,
                    None => Self::spec_default_version(),
                };
                match spec_download_url(v.spec_to_string(), os, arch) {
                    Err(e) => r matches Err(x) && x == e,
                    Ok(u) => r matches Ok(o) && {
                        &&& o.url@ == u
                        &&& o.dest == opts.install_dir
                        &&& o.extract_opts == ExtractOptions { skip_base: true, preserve_dir: true }
                        &&& o.find_version == FindVersion::Any
                        &&& o.min_version is None
                    },
                }
            }),
    {
        let version = match opts.version {
            Some(v) => v,
            None => Self::default_version(),
        };
        let url = match get_download_url(&version, os, arch) {
            Ok(u) => u,
            Err(e) => {
                return Err(e);
            },
        };
        let extract_opts = ExtractOptions { skip_base: true, preserve_dir: true };
        Ok(
            InstallToolOptions {
                url,
                dest: opts.install_dir,
                extract_opts,
                find_version: FindVersion::Any,
                min_version: None,
            },
        )
    }
}

impl Tool for Sass {
    open spec fn spec_name() -> Seq<char> {
        "sass"@
    }

    open spec fn spec_binary_name(os: TargetOs) -> Seq<char> {
        if os == TargetOs::Windows {
            "sass.bat"@
        } else {
            "sass"@
        }
    }

    open spec fn spec_default_version() -> Version {
        Version::make(1, 62, Some(0))
    }

    open spec fn spec_test_version_args() -> Seq<Seq<char>> {
        seq!["--version"@]
    }

    open spec fn parse_version_accepts(s: Seq<char>) -> bool {
        true
    }

    /// The output is the version alone, `0.0.0`.
    open spec fn spec_parse_version(s: Seq<char>) -> Result<Version, ToolError> {
        lift_version(Version::spec_from_str(trim(s)))
    }

    /// The launcher runs a Dart runtime with a snapshot of the compiler.
    open spec fn spec_included_files(os: TargetOs) -> Seq<Seq<char>> {
        if os == TargetOs::Windows {
            seq!["sass.bat"@, "src/dart.exe"@, "src/sass.snapshot"@]
        } else {
            seq!["sass"@, "src/dart"@, "src/sass.snapshot"@]
        }
    }

    closed spec fn spec_binary_path(&self) -> PathView {
        self.0@
    }

    fn name() -> (r: &'static str) {
        "sass"
    }

    fn binary_name(os: TargetOs) -> (r: &'static str) {
        proof {
            reveal_strlit("sass.bat");
            reveal_strlit("sass");
            assert("sass.bat"@ =~= seq!['s', 'a', 's', 's', '.', 'b', 'a', 't']);
            assert("sass"@ =~= seq!['s', 'a', 's', 's']);
        }
        if os == TargetOs::Windows {
            "sass.bat"
        } else {
            "sass"
        }
    }

    fn default_version() -> (r: Version) {
        Version::new(1, 62, Some(0))
    }

    fn test_version_args() -> (r: Vec<&'static str>) {
        let r = vec!["--version"];
        assert(r@.map_values(|a: &str| a@) =~= seq!["--version"@]);
        r
    }

    fn can_parse_version(s: &str) -> (r: bool) {
        true
    }

    fn parse_version(s: &str) -> (r: Result<Version, ToolError>) {
        lift_version_result(Version::from_str(trim_str(s)))
    }

    fn included_files(os: TargetOs) -> (r: Vec<&'static str>) {
        let r = if os == TargetOs::Windows {
            vec!["sass.bat", "src/dart.exe", "src/sass.snapshot"]
        } else {
            vec!["sass", "src/dart", "src/sass.snapshot"]
        };
        assert(r@.map_values(|a: &str| a@) =~= Self::spec_included_files(os));
        r
    }

    fn binary_path(&self) -> (r: &FsPath) {
        &self.0
    }
}

/// Where a Sass release is published.
pub open spec fn spec_download_url(version: Seq<char>, os: TargetOs, arch: TargetArch) -> Result<
    Seq<char>,
    ToolError,
> {
    let base = "https://github.com/sass/dart-sass/releases/download/"@ + version + "/dart-sass-"@
        + version;
    if !(os == TargetOs::Windows || os == TargetOs::MacOs || os == TargetOs::Linux) {
        Err(ToolError::UnsupportedOs)
    } else if arch == TargetArch::Other {
        Err(ToolError::UnsupportedArch)
    } else if os == TargetOs::Windows && arch == TargetArch::X86_64 {
        Ok(base + "-windows-x64.zip"@)
    } else if os != TargetOs::Windows && arch == TargetArch::X86_64 {
        Ok(base + "-"@ + spec_os_name(os) + "-x64.tar.gz"@)
    } else if os != TargetOs::Windows && arch == TargetArch::Aarch64 {
        Ok(base + "-"@ + spec_os_name(os) + "-arm64.tar.gz"@)
    } else {
        Err(ToolError::UnsupportedTarget)
    }
}

/// The address of the Sass release of a version for a system.
pub fn get_download_url(version: &Version, os: TargetOs, arch: TargetArch) -> (r: Result<
    String,
    ToolError,
>)
    ensures
        text_result(r) == spec_download_url(version.spec_to_string(), os, arch),
{
    if !(os == TargetOs::Windows || os == TargetOs::MacOs || os == TargetOs::Linux) {
        return Err(ToolError::UnsupportedOs);
    }
    if arch == TargetArch::Other {
        return Err(ToolError::UnsupportedArch);
    }
    if os == TargetOs::Windows && arch == TargetArch::Aarch64 {
        return Err(ToolError::UnsupportedTarget);
    }
    let v = version.to_string();
    let mut s = String::from_str("https://github.com/sass/dart-sass/releases/download/");
    s.append(v.as_str());
    s.append("/dart-sass-");
    s.append(v.as_str());
    if os == TargetOs::Windows {
        s.append("-windows-x64.zip");
    } else {
        s.append("-");
        s.append(os_name(os));
        if arch == TargetArch::X86_64 {
            s.append("-x64.tar.gz");
        } else {
            s.append("-arm64.tar.gz");
        }
    }
    Ok(s)
}

/// The Sass releases are zip archives for Windows and gzip compressed tar
/// archives for the other systems.
pub proof fn lemma_release_archive(version: Seq<char>, os: TargetOs, arch: TargetArch)
    requires
        spec_download_url(version, os, arch) is Ok,
    ensures
        spec_archive_kind(spec_download_url(version, os, arch)->Ok_0) == if os == TargetOs::Windows {
            ArchiveKind::Zip
        } else {
            ArchiveKind::TarGz
        },
{
    reveal_strlit("-windows-x64.zip");
    reveal_strlit("-x64.tar.gz");
    reveal_strlit("-arm64.tar.gz");
    reveal_strlit(".tar.gz");
    reveal_strlit(".zip");
    assert("-windows-x64.zip"@.skip(12) =~= ".zip"@);
    assert("-x64.tar.gz"@.skip(4) =~= ".tar.gz"@);
    assert("-arm64.tar.gz"@.skip(6) =~= ".tar.gz"@);
    let base = "https://github.com/sass/dart-sass/releases/download/"@ + version + "/dart-sass-"@
        + version;
    if os == TargetOs::Windows {
        lemma_kind_zip_tail(base, "-windows-x64.zip"@);
    } else if arch == TargetArch::X86_64 {
        lemma_kind_tar_gz_tail(base + "-"@ + spec_os_name(os), "-x64.tar.gz"@);
    } else {
        lemma_kind_tar_gz_tail(base + "-"@ + spec_os_name(os), "-arm64.tar.gz"@);
    }
}

/// Sass reads back the version it prints: the version alone on a line.
pub proof fn lemma_reads_printed_version(v: Version)
    ensures
        Sass::parse_version_accepts(v.spec_to_string() + seq!['\n']),
        Sass::spec_parse_version(v.spec_to_string() + seq!['\n']) == Ok::<Version, ToolError>(v),
{
    lemma_version_text(v);
    let t = v.spec_to_string();
    lemma_digits_and_dots_plain(t);
    lemma_trim_line(t);
    lemma_version_string_roundtrip(v);
}

} // verus!
