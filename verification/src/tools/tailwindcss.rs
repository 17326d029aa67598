//! Tailwind CSS, the utility first stylesheet generator, as its standalone executable.
use vstd::prelude::*;
use crate::path::{FsPath, PathView};
use crate::platform::{os_name, spec_os_name, TargetArch, TargetOs};
use crate::text::{
    split, split_str, strip_prefix, strip_prefix_str, trim, trim_str,
};
use crate::tools::archive::{lemma_kind_plain, spec_archive_kind, ArchiveKind, ExtractOptions};
use crate::tools::global_cache::{FindVersion, InstallToolOptions};
use crate::tools::{
    lift_version, lift_version_result, text_result, LoadOptions, Tool, ToolError,
};
use crate::version::Version;

use crate::text::{lemma_digits_and_dots_plain, lemma_trim_line, lemma_trim_plain};
use crate::version::{lemma_version_string_roundtrip, lemma_version_text};
use crate::text::{lemma_split_plain, lemma_split_then};
verus! {

/// The Tailwind CSS executable, by its path.
#[derive(Debug)]
pub struct TailwindCss(FsPath);

impl TailwindCss {
    /// The executable found at the given path.
    pub fn new(binary: FsPath) -> (r: TailwindCss)
        ensures
            r.spec_binary_path() == binary@,
    {
        TailwindCss(binary)
    }

    /// How Tailwind CSS is installed for the given options: the version
    /// asked for or the default one, downloaded as the executable itself.
    pub fn install_options(opts: LoadOptions, os: TargetOs, arch: TargetArch) -> (r: Result<
        InstallToolOptions,
        ToolError,
    >)
        ensures
            ({
                let v = match opts.version {
                    Some(v) => v,
                    None => Self::spec_default_version(),
                };
                match spec_download_url(v.spec_to_string(), os, arch) {
                    Err(e) => r matches Err(x) && x == e,
                    Ok(u) => r matches Ok(o) && {
                        &&& o.url@ == u
                        &&& o.dest == opts.install_dir
                        &&& o.extract_opts == ExtractOptions { skip_base: false, preserve_dir: false }
                        &&& o.find_version == FindVersion::Any
                        &&& o.min_version is None
                    },
                }
            }),
    {
        let version = match opts.version {
            Some(v) => v,
            None => Self::default_version(),
        };
        let url = match get_download_url(&version, os, arch) {
            Ok(u) => u,
            Err(e) => {
                return Err(e);
            },
        };
        let extract_opts = ExtractOptions::default_options();
        Ok(
            InstallToolOptions {
                url,
                dest: opts.install_dir,
                extract_opts,
                find_version: FindVersion::Any,
                min_version: None,
            },
        )
    }
}

impl Tool for TailwindCss {
    open spec fn spec_name() -> Seq<char> {
        "tailwindcss"@
    }

    open spec fn spec_binary_name(os: TargetOs) -> Seq<char> {
        if os == TargetOs::Windows {
            "tailwindcss.exe"@
        } else {
            "tailwindcss"@
        }
    }

    open spec fn spec_default_version() -> Version {
        Version::make(3, 3, Some(1))
    }

    open spec fn spec_test_version_args() -> Seq<Seq<char>> {
        seq!["--help"@]
    }

    open spec fn parse_version_accepts(s: Seq<char>) -> bool {
        true
    }

    /// The first line of the help that is not blank reads
    /// `tailwindcss v0.0.0`: its second word, without the `v`, is the version.
    open spec fn spec_parse_version(s: Seq<char>) -> Result<Version, ToolError> {
        match first_nonblank(split(s, '\n')) {
            None => Err(ToolError::MalformedVersionOutput),
            Some(line) => {
                let words = split(line, ' ');
                if words.len() < 2 {
                    Err(ToolError::MalformedVersionOutput)
                } else {
                    match strip_prefix(words[1], "v"@) {
                        None => Err(ToolError::MalformedVersionOutput),
                        Some(t) => lift_version(Version::spec_from_str(trim(t))),
                    }
                }
            },
        }
    }

    open spec fn spec_included_files(os: TargetOs) -> Seq<Seq<char>> {
        Seq::empty()
    }

    closed spec fn spec_binary_path(&self) -> PathView {
        self.0@
    }

    fn name() -> (r: &'static str) {
        "tailwindcss"
    }

    fn binary_name(os: TargetOs) -> (r: &'static str) {
        proof {
            reveal_strlit("tailwindcss.exe");
            reveal_strlit("tailwindcss");
            assert("tailwindcss.exe"@ =~= seq![
                't', 'a', 'i', 'l', 'w', 'i', 'n', 'd', 'c', 's', 's', '.', 'e', 'x', 'e',
            ]);
            assert("tailwindcss"@ =~= seq!['t', 'a', 'i', 'l', 'w', 'i', 'n', 'd', 'c', 's', 's']);
        }
        if os == TargetOs::Windows {
            "tailwindcss.exe"
        } else {
            "tailwindcss"
        }
    }

    fn default_version() -> (r: Version) {
        Version::new(3, 3, Some(1))
    }

    fn test_version_args() -> (r: Vec<&'static str>) {
        let r = vec!["--help"];
        assert(r@.map_values(|a: &str| a@) =~= seq!["--help"@]);
        r
    }

    fn can_parse_version(s: &str) -> (r: bool) {
        true
    }

    fn parse_version(s: &str) -> (r: Result<Version, ToolError>) {
        let lines = split_str(s, '\n');
        let line = match first_nonblank_str(&lines) {
            Some(l) => l,
            None => {
                return Err(ToolError::MalformedVersionOutput);
            },
        };
        let words = split_str(line, ' ');
        if words.len() < 2 {
            return Err(ToolError::MalformedVersionOutput);
        }
        let text = match strip_prefix_str(words[1], "v") {
            Some(t) => t,
            None => {
                return Err(ToolError::MalformedVersionOutput);
            },
        };
        lift_version_result(Version::from_str(trim_str(text)))
    }

    fn included_files(os: TargetOs) -> (r: Vec<&'static str>) {
        let r: Vec<&'static str> = Vec::new();
        assert(r@.map_values(|a: &str| a@) =~= Seq::<Seq<char>>::empty());
        r
    }

    fn binary_path(&self) -> (r: &FsPath) {
        &self.0
    }
}

/// The first line that is not blank, trimmed.
pub open spec fn first_nonblank(lines: Seq<Seq<char>>) -> Option<Seq<char>>
    decreases lines.len(),
{
    if lines.len() == 0 {
        None
    } else if trim(lines[0]).len() > 0 {
        Some(trim(lines[0]))
    } else {
        first_nonblank(lines.drop_first())
    }
}

/// The first line that is not blank, trimmed.
fn first_nonblank_str<'a>(lines: &Vec<&'a str>) -> (r: Option<&'a str>)
    ensures
        match first_nonblank(lines@.map_values(|x: &str| x@)) {
            Some(l) => r matches Some(x) && x@ == l,
            None => r is None,
        },
{
    let ghost all = lines@.map_values(|x: &str| x@);
    let mut i: usize = 0;
    assert(all.skip(0) =~= all);
    while i < lines.len()
        invariant
            i <= lines.len(),
            all == lines@.map_values(|x: &str| x@),
            first_nonblank(all) == first_nonblank(all.skip(i as int)),
        decreases lines.len() - i,
    {
        assert(all.skip(i as int)[0] == lines@[i as int]@);
        assert(all.skip(i as int).drop_first() =~= all.skip(i + 1));
        let t = trim_str(lines[i]);
        if t.unicode_len() > 0 {
            return Some(t);
        }
        i = i + 1;
    }
    assert(all.skip(i as int) =~= Seq::<Seq<char>>::empty());
    None
}

/// Where a Tailwind CSS release is published.
pub open spec fn spec_download_url(version: Seq<char>, os: TargetOs, arch: TargetArch) -> Result<
    Seq<char>,
    ToolError,
> {
    let base = "https://github.com/tailwindlabs/tailwindcss/releases/download/v"@ + version;
    if !(os == TargetOs::Windows || os == TargetOs::MacOs || os == TargetOs::Linux) {
        Err(ToolError::UnsupportedOs)
    } else if arch == TargetArch::Other {
        Err(ToolError::UnsupportedArch)
    } else if os == TargetOs::Windows && arch == TargetArch::X86_64 {
        Ok(base + "/tailwindcss-windows-x64.exe"@)
    } else if os != TargetOs::Windows && arch == TargetArch::X86_64 {
        Ok(base + "/tailwindcss-"@ + spec_os_name(os) + "-x64"@)
    } else if os != TargetOs::Windows && arch == TargetArch::Aarch64 {
        Ok(base + "/tailwindcss-"@ + spec_os_name(os) + "-arm64"@)
    } else {
        Err(ToolError::UnsupportedTarget)
    }
}

/// The address of the Tailwind CSS release of a version for a system.
pub fn get_download_url(version: &Version, os: TargetOs, arch: TargetArch) -> (r: Result<
    String,
    ToolError,
>)
    ensures
        text_result(r) == spec_download_url(version.spec_to_string(), os, arch),
{
    if !(os == TargetOs::Windows || os == TargetOs::MacOs || os == TargetOs::Linux) {
        return Err(ToolError::UnsupportedOs);
    }
    if arch == TargetArch::Other {
        return Err(ToolError::UnsupportedArch);
    }
    if os == TargetOs::Windows && arch == TargetArch::Aarch64 {
        return Err(ToolError::UnsupportedTarget);
    }
    let v = version.to_string();
    let mut s = String::from_str("https://github.com/tailwindlabs/tailwindcss/releases/download/v");
    s.append(v.as_str());
    if os == TargetOs::Windows {
        s.append("/tailwindcss-windows-x64.exe");
    } else {
        s.append("/tailwindcss-");
        s.append(os_name(os));
        if arch == TargetArch::X86_64 {
            s.append("-x64");
        } else {
            s.append("-arm64");
        }
    }
    Ok(s)
}

/// The Tailwind CSS releases are executables, not archives.
pub proof fn lemma_release_archive(version: Seq<char>, os: TargetOs, arch: TargetArch)
    requires
        spec_download_url(version, os, arch) is Ok,
    ensures
        spec_archive_kind(spec_download_url(version, os, arch)->Ok_0) == ArchiveKind::Plain,
{
    reveal_strlit("/tailwindcss-windows-x64.exe");
    reveal_strlit("-x64");
    reveal_strlit("-arm64");
    let u = spec_download_url(version, os, arch)->Ok_0;
    let base = "https://github.com/tailwindlabs/tailwindcss/releases/download/v"@ + version;
    if os == TargetOs::Windows {
        assert(u == base + "/tailwindcss-windows-x64.exe"@);
        assert(u.last() == 'e');
    } else if arch == TargetArch::X86_64 {
        assert(u == base + "/tailwindcss-"@ + spec_os_name(os) + "-x64"@);
        assert(u.last() == '4');
    } else {
        assert(u == base + "/tailwindcss-"@ + spec_os_name(os) + "-arm64"@);
        assert(u.last() == '4');
    }
    lemma_kind_plain(u);
}

/// Tailwind CSS reads back the version its help prints: after a blank
/// line, `tailwindcss v` and the version.
pub proof fn lemma_reads_printed_version(v: Version)
    ensures
        TailwindCss::spec_parse_version(
            seq!['\n'] + "tailwindcss v"@ + v.spec_to_string() + seq!['\n'],
        ) == Ok::<Version, ToolError>(v),
{
    reveal_strlit("tailwindcss v");
    reveal_strlit("tailwindcss");
    reveal_strlit("v");
    let x = "tailwindcss"@;
    assert(x =~= seq!['t', 'a', 'i', 'l', 'w', 'i', 'n', 'd', 'c', 's', 's']);
    assert("v"@ =~= seq!['v']);
    assert("tailwindcss v"@ =~= x + seq![' '] + seq!['v']);
    lemma_version_text(v);
    let t = v.spec_to_string();
    lemma_digits_and_dots_plain(t);
    let w = seq!['v'] + t;
    assert(!w.contains(' ')) by {
        if w.contains(' ') {
            let i = choose|i: int| 0 <= i < w.len() && w[i] == ' ';
            if i > 0 {
                assert(w[i] == t[i - 1]);
            }
        }
    }
    let line = x + seq![' '] + w;
    assert("tailwindcss v"@ + t =~= line);
    assert(!line.contains('\n')) by {
        if line.contains('\n') {
            let i = choose|i: int| 0 <= i < line.len() && line[i] == '\n';
            if i > x.len() + 1 {
                assert(line[i] == t[i - x.len() - 2]);
            }
        }
    }
    let e = Seq::<char>::empty();
    let s = seq!['\n'] + line + seq!['\n'];
    assert(s =~= (e + seq!['\n'] + line) + seq!['\n'] + e);
    lemma_split_plain(e, '\n');
    lemma_split_then(e, line, '\n');
    lemma_split_then(e + seq!['\n'] + line, e, '\n');
    let lines = split(s, '\n');
    assert(lines =~= seq![e, line, e]);
    assert(trim(e) =~= e);
    assert(lines.drop_first()[0] == line);
    assert(line[0] == 't');
    assert(line.last() == t.last());
    lemma_trim_plain(line);
    assert(first_nonblank(lines) == first_nonblank(lines.drop_first()));
    lemma_split_plain(x, ' ');
    lemma_split_then(x, w, ' ');
    assert(w.take(1) =~= seq!['v']);
    assert(w.skip(1) =~= t);
    lemma_trim_plain(t);
    lemma_version_string_roundtrip(v);
    assert(first_nonblank(lines.drop_first()) == Some(line));
    assert(first_nonblank(lines) == Some(line));
    let words = split(line, ' ');
    assert(words =~= seq![x, w]);
    assert(strip_prefix(words[1], "v"@) == Some(t));
    assert(s =~= seq!['\n'] + "tailwindcss v"@ + v.spec_to_string() + seq!['\n']);
}

/// Tailwind CSS has a release for every supported system on x86-64 and on
/// ARM64, except Windows on ARM64: its address is the release of the
/// version followed by `/tailwindcss-windows-x64.exe` on Windows, and by
/// `/tailwindcss-{linux|macos}-{x64|arm64}` elsewhere.
pub proof fn lemma_release_for_every_supported_target(version: Seq<char>, os: TargetOs, arch: TargetArch)
    requires
        os == TargetOs::Windows || os == TargetOs::MacOs || os == TargetOs::Linux,
        arch == TargetArch::X86_64 || arch == TargetArch::Aarch64,
        !(os == TargetOs::Windows && arch == TargetArch::Aarch64),
    ensures
        ({
            let base = "https://github.com/tailwindlabs/tailwindcss/releases/download/v"@ + version;
            let system = if os == TargetOs::Linux {
                "linux"@
            } else {
                "macos"@
            };
            let cpu = if arch == TargetArch::X86_64 {
                "x64"@
            } else {
                "arm64"@
            };
            spec_download_url(version, os, arch) == if os == TargetOs::Windows {
                Ok::<Seq<char>, ToolError>(base + "/tailwindcss-windows-x64.exe"@)
            } else {
                Ok::<Seq<char>, ToolError>(base + "/tailwindcss-"@ + system + "-"@ + cpu)
            }
        }),
{
    reveal_strlit("-x64");
    reveal_strlit("-arm64");
    reveal_strlit("x64");
    reveal_strlit("arm64");
    reveal_strlit("-");
    reveal_strlit("linux");
    reveal_strlit("macos");
    assert("-x64"@ =~= "-"@ + "x64"@);
    assert("-arm64"@ =~= "-"@ + "arm64"@);
    let base = "https://github.com/tailwindlabs/tailwindcss/releases/download/v"@ + version;
    if os != TargetOs::Windows {
        let pre = base + "/tailwindcss-"@ + spec_os_name(os);
        assert(pre + "-x64"@ =~= pre + "-"@ + "x64"@);
        assert(pre + "-arm64"@ =~= pre + "-"@ + "arm64"@);
    }
}

} // verus!
