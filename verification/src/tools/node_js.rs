//! Node.js, which the npm based tools run on.
use vstd::prelude::*;
use crate::path::{spec_parent, valid_component, FsPath, PathView};
use crate::platform::{TargetArch, TargetOs};
use crate::text::{trim, trim_str};
use crate::tools::archive::{
    lemma_kind_tar_gz_tail, lemma_kind_zip_tail, spec_archive_kind, ArchiveKind, BehaviorView,
    ExtractBehavior,
};
use crate::tools::{lift_version, lift_version_result, Tool, ToolError};
use crate::version::Version;

use crate::text::{lemma_digits_and_dots_plain, lemma_trim_line, lemma_trim_plain};
use crate::version::{lemma_version_string_roundtrip, lemma_version_text};
verus! {

/// The Node.js runtime, by the path of its executable.
#[derive(Debug)]
pub struct NodeJs(FsPath);

impl NodeJs {
    /// The runtime found at the given executable.
    pub fn new(binary: FsPath) -> (r: NodeJs)
        ensures
            r.spec_binary_path() == binary@,
    {
        NodeJs(binary)
    }

    /// The files installed beside the executable: the npm and npx launchers.
    pub fn additional_files(os: TargetOs) -> (r: Vec<&'static str>)
        ensures
            r@.map_values(|a: &str| a@) == spec_additional_files(os),
    {
        let r = if os == TargetOs::Windows {
            vec!["npx", "npx.cmd", "npm", "npm.cmd"]
        } else {
            vec!["npx", "npm"]
        };
        assert(r@.map_values(|a: &str| a@) =~= spec_additional_files(os));
        r
    }

    /// A file beside the executable, such as the npm launcher.
    pub fn sibling(&self, name: &str) -> (r: Result<FsPath, ToolError>)
        requires
            valid_component(name@),
        ensures
            match spec_parent(self.spec_binary_path()) {
                Some(d) => r matches Ok(p) && p@ == PathView {
                    absolute: d.absolute,
                    parts: d.parts.push(name@),
                },
                None => r == Err::<FsPath, ToolError>(ToolError::NoParentDirectory),
            },
    {
        match self.0.parent() {
            Some(dir) => Ok(dir.join_name(name)),
            None => Err(ToolError::NoParentDirectory),
        }
    }

    /// Whether a runtime already on the system is recent enough to use: at
    /// least the default version.
    pub fn accepts_system_version(version: &Version) -> (r: bool)
        ensures
            r == Version::le(Self::spec_default_version(), *version),
    {
        let d = Self::default_version();
        version.is_at_least(&d)
    }
}

/// The launchers installed beside the Node.js executable.
pub open spec fn spec_additional_files(os: TargetOs) -> Seq<Seq<char>> {
    if os == TargetOs::Windows {
        seq!["npx"@, "npx.cmd"@, "npm"@, "npm.cmd"@]
    } else {
        seq!["npx"@, "npm"@]
    }
}

impl Tool for NodeJs {
    open spec fn spec_name() -> Seq<char> {
        "node"@
    }

    open spec fn spec_binary_name(os: TargetOs) -> Seq<char> {
        if os == TargetOs::Windows {
            "node.exe"@
        } else {
            "node"@
        }
    }

    open spec fn spec_default_version() -> Version {
        Version::make(16, 20, Some(0))
    }

    open spec fn spec_test_version_args() -> Seq<Seq<char>> {
        seq!["--version"@]
    }

    /// The trimmed output must start with a one byte character, which is skipped.
    open spec fn parse_version_accepts(s: Seq<char>) -> bool {
        trim(s).len() > 0 && (trim(s)[0] as u32) < 128
    }

    /// The output reads `v16.20.0`: the first character is skipped.
    open spec fn spec_parse_version(s: Seq<char>) -> Result<Version, ToolError> {
        lift_version(Version::spec_from_str(trim(s).drop_first()))
    }

    open spec fn spec_included_files(os: TargetOs) -> Seq<Seq<char>> {
        Seq::empty()
    }

    closed spec fn spec_binary_path(&self) -> PathView {
        self.0@
    }

    fn name() -> (r: &'static str) {
        "node"
    }

    fn binary_name(os: TargetOs) -> (r: &'static str) {
        proof {
            reveal_strlit("node.exe");
            reveal_strlit("node");
            assert("node.exe"@ =~= seq!['n', 'o', 'd', 'e', '.', 'e', 'x', 'e']);
            assert("node"@ =~= seq!['n', 'o', 'd', 'e']);
        }
        if os == TargetOs::Windows {
            "node.exe"
        } else {
            "node"
        }
    }

    fn default_version() -> (r: Version) {
        Version::new(16, 20, Some(0))
    }

    fn test_version_args() -> (r: Vec<&'static str>) {
        let r = vec!["--version"];
        assert(r@.map_values(|a: &str| a@) =~= seq!["--version"@]);
        r
    }

    fn can_parse_version(s: &str) -> (r: bool) {
        let t = trim_str(s);
        t.unicode_len() > 0 && (t.get_char(0) as u32) < 128
    }

    fn parse_version(s: &str) -> (r: Result<Version, ToolError>) {
        let t = trim_str(s);
        let n = t.unicode_len();
        let rest = t.substring_char(1, n);
        assert(rest@ =~= trim(s@).drop_first());
        lift_version_result(Version::from_str(rest))
    }

    fn included_files(os: TargetOs) -> (r: Vec<&'static str>) {
        let r: Vec<&'static str> = Vec::new();
        assert(r@.map_values(|a: &str| a@) =~= Seq::<Seq<char>>::empty());
        r
    }

    fn binary_path(&self) -> (r: &FsPath) {
        &self.0
    }
}

/// Where a Node.js release is published.
pub open spec fn spec_download_url(version: Seq<char>, os: TargetOs, arch: TargetArch) -> Result<
    Seq<char>,
    ToolError,
> {
    let base = "https://nodejs.org/download/release/v"@ + version + "/node-v"@ + version;
    if !(os == TargetOs::Windows || os == TargetOs::MacOs || os == TargetOs::Linux) {
        Err(ToolError::UnsupportedOs)
    } else if arch == TargetArch::Other {
        Err(ToolError::UnsupportedArch)
    } else if os == TargetOs::Windows && arch == TargetArch::X86_64 {
        Ok(base + "-win-x86.zip"@)
    } else if os == TargetOs::MacOs && arch == TargetArch::X86_64 {
        Ok(base + "-darwin-x64.tar.gz"@)
    } else if os == TargetOs::MacOs && arch == TargetArch::Aarch64 {
        Ok(base + "-darwin-arm64.tar.gz"@)
    } else if os == TargetOs::Linux && arch == TargetArch::X86_64 {
        Ok(base + "-linux-x64.tar.gz"@)
    } else if os == TargetOs::Linux && arch == TargetArch::Aarch64 {
        Ok(base + "-linux-arm64.tar.gz"@)
    } else {
        Err(ToolError::UnsupportedTarget)
    }
}

/// The address of the Node.js release of a version for a system.
pub fn get_download_url(version: &str, os: TargetOs, arch: TargetArch) -> (r: Result<
    String,
    ToolError,
>)
    ensures
        r matches Ok(u) ==> spec_download_url(version@, os, arch) == Ok::<Seq<char>, ToolError>(u@),
        r matches Err(e) ==> spec_download_url(version@, os, arch) == Err::<Seq<char>, ToolError>(e),
{
    if !(os == TargetOs::Windows || os == TargetOs::MacOs || os == TargetOs::Linux) {
        return Err(ToolError::UnsupportedOs);
    }
    if arch == TargetArch::Other {
        return Err(ToolError::UnsupportedArch);
    }
    let tail = if os == TargetOs::Windows && arch == TargetArch::X86_64 {
        "-win-x86.zip"
    } else if os == TargetOs::MacOs && arch == TargetArch::X86_64 {
        "-darwin-x64.tar.gz"
    } else if os == TargetOs::MacOs && arch == TargetArch::Aarch64 {
        "-darwin-arm64.tar.gz"
    } else if os == TargetOs::Linux && arch == TargetArch::X86_64 {
        "-linux-x64.tar.gz"
    } else if os == TargetOs::Linux && arch == TargetArch::Aarch64 {
        "-linux-arm64.tar.gz"
    } else {
        return Err(ToolError::UnsupportedTarget);
    };
    let mut s = String::from_str("https://nodejs.org/download/release/v");
    s.append(version);
    s.append("/node-v");
    s.append(version);
    s.append(tail);
    Ok(s)
}

/// The directory inside a Node.js archive that holds the release; only
/// Unix releases are laid out this way.
pub open spec fn spec_base_path(version: Seq<char>, os: TargetOs, arch: TargetArch) -> Result<
    Seq<char>,
    ToolError,
> {
    let base = "node-v"@ + version;
    if !(os == TargetOs::MacOs || os == TargetOs::Linux) {
        Err(ToolError::UnsupportedOs)
    } else if arch == TargetArch::Other {
        Err(ToolError::UnsupportedArch)
    } else if os == TargetOs::MacOs && arch == TargetArch::X86_64 {
        Ok(base + "-darwin-x64"@)
    } else if os == TargetOs::MacOs {
        Ok(base + "-darwin-arm64"@)
    } else if arch == TargetArch::X86_64 {
        Ok(base + "-linux-x64"@)
    } else {
        Ok(base + "-linux-arm64"@)
    }
}

/// The directory of a Node.js release inside its archive.
pub fn base_path(version: &str, os: TargetOs, arch: TargetArch) -> (r: Result<String, ToolError>)
    requires
        os != TargetOs::Windows,
        os != TargetOs::Other,
    ensures
        r matches Ok(u) ==> spec_base_path(version@, os, arch) == Ok::<Seq<char>, ToolError>(u@),
        r matches Err(e) ==> spec_base_path(version@, os, arch) == Err::<Seq<char>, ToolError>(e),
{
    if !(os == TargetOs::MacOs || os == TargetOs::Linux) {
        return Err(ToolError::UnsupportedOs);
    }
    if arch == TargetArch::Other {
        return Err(ToolError::UnsupportedArch);
    }
    let tail = if os == TargetOs::MacOs && arch == TargetArch::X86_64 {
        "-darwin-x64"
    } else if os == TargetOs::MacOs {
        "-darwin-arm64"
    } else if arch == TargetArch::X86_64 {
        "-linux-x64"
    } else {
        "-linux-arm64"
    };
    let mut s = String::from_str("node-v");
    s.append(version);
    s.append(tail);
    Ok(s)
}

/// How the executable is taken out of the downloaded archive: on Windows
/// the archive's top directory is skipped; elsewhere the files are taken
/// from the `bin` directory of the release.
pub fn extract_behavior(version: &str, os: TargetOs, arch: TargetArch) -> (r: Result<
    ExtractBehavior,
    ToolError,
>)
    requires
        os != TargetOs::Other,
    ensures
        os == TargetOs::Windows ==> (r matches Ok(b) && b@ is SkipBasePath),
        os != TargetOs::Windows ==> match spec_base_path(version@, os, arch) {
            Ok(base) => (r matches Ok(b) && b@ == BehaviorView::Dir(
                PathView { absolute: false, parts: seq![base, "bin"@] },
            )),
            Err(e) => r == Err::<ExtractBehavior, ToolError>(e),
        },
{
    if os == TargetOs::Windows {
        return Ok(ExtractBehavior::SkipBasePath);
    }
    match base_path(version, os, arch) {
        Ok(base) => {
            let dir = FsPath::relative(vec![base]);
            proof {
                assert(dir@.parts =~= seq![base@]);
            }
            proof {
                reveal_strlit("bin");
                assert("bin"@ =~= seq!['b', 'i', 'n']);
            }
            let bin = dir.join_name("bin");
            assert(bin@.parts =~= seq![base@, "bin"@]);
            Ok(ExtractBehavior::Dir(bin))
        },
        Err(e) => Err(e),
    }
}

/// The Node.js releases are zip archives for Windows and gzip compressed
/// tar archives for the other systems.
pub proof fn lemma_release_archive(version: Seq<char>, os: TargetOs, arch: TargetArch)
    requires
        spec_download_url(version, os, arch) is Ok,
    ensures
        spec_archive_kind(spec_download_url(version, os, arch)->Ok_0) == if os == TargetOs::Windows {
            ArchiveKind::Zip
        } else {
            ArchiveKind::TarGz
        },
{
    reveal_strlit("-win-x86.zip");
    reveal_strlit("-darwin-x64.tar.gz");
    reveal_strlit("-darwin-arm64.tar.gz");
    reveal_strlit("-linux-x64.tar.gz");
    reveal_strlit("-linux-arm64.tar.gz");
    reveal_strlit(".tar.gz");
    reveal_strlit(".zip");
    assert("-win-x86.zip"@.skip(8) =~= ".zip"@);
    assert("-darwin-x64.tar.gz"@.skip(11) =~= ".tar.gz"@);
    assert("-darwin-arm64.tar.gz"@.skip(13) =~= ".tar.gz"@);
    assert("-linux-x64.tar.gz"@.skip(10) =~= ".tar.gz"@);
    assert("-linux-arm64.tar.gz"@.skip(12) =~= ".tar.gz"@);
    let base = "https://nodejs.org/download/release/v"@ + version + "/node-v"@ + version;
    if os == TargetOs::Windows {
        lemma_kind_zip_tail(base, "-win-x86.zip"@);
    } else if os == TargetOs::MacOs && arch == TargetArch::X86_64 {
        lemma_kind_tar_gz_tail(base, "-darwin-x64.tar.gz"@);
    } else if os == TargetOs::MacOs {
        lemma_kind_tar_gz_tail(base, "-darwin-arm64.tar.gz"@);
    } else if arch == TargetArch::X86_64 {
        lemma_kind_tar_gz_tail(base, "-linux-x64.tar.gz"@);
    } else {
        lemma_kind_tar_gz_tail(base, "-linux-arm64.tar.gz"@);
    }
}

/// Node.js reads back the version it prints: `v` and the version on a line.
pub proof fn lemma_reads_printed_version(v: Version)
    ensures
        NodeJs::parse_version_accepts(seq!['v'] + v.spec_to_string() + seq!['\n']),
        NodeJs::spec_parse_version(seq!['v'] + v.spec_to_string() + seq!['\n']) == Ok::<
            Version,
            ToolError,
        >(v),
{
    lemma_version_text(v);
    let t = v.spec_to_string();
    let s = seq!['v'] + t;
    assert(s[0] == 'v');
    assert(s.last() == t.last());
    lemma_trim_line(s);
    assert(s.drop_first() =~= t);
    lemma_version_string_roundtrip(v);
}

} // verus!
