//! Parcel, the bundler, installed with npm.
use vstd::prelude::*;
use crate::path::{FsPath, PathView};
use crate::tools::global_cache::spec_in_dir;
use crate::platform::TargetOs;
use crate::text::{trim, trim_str};
use crate::tools::{lift_version, lift_version_result, LoadOptions, Tool, ToolError};
use crate::version::Version;

use crate::text::{lemma_digits_and_dots_plain, lemma_trim_line, lemma_trim_plain};
use crate::version::{lemma_version_string_roundtrip, lemma_version_text};
verus! {

/// The Parcel bundler, by the path of its launcher.
#[derive(Debug)]
pub struct Parcel(FsPath);

impl Parcel {
    /// The bundler found at the given launcher.
    pub fn new(binary: FsPath) -> (r: Parcel)
        ensures
            r.spec_binary_path() == binary@,
    {
        Parcel(binary)
    }

    /// The package npm installs for the given options: `parcel@{version}`,
    /// of the version asked for or the default one.
    pub fn install_package(opts: &LoadOptions) -> (r: String)
        ensures
            r@ == "parcel@"@ + (match opts.version {
                Some(v) => v,
                None => Self::spec_default_version(),
            }).spec_to_string(),
    {
        let version = match opts.version {
            Some(v) => v,
            None => Self::default_version(),
        };
        let mut s = String::from_str("parcel@");
        let v = version.to_string();
        s.append(v.as_str());
        s
    }

    /// Where npm puts the launcher when installing into a directory:
    /// `{dir}/node_modules/.bin/{binary}`.
    pub fn installed_binary(dir: &FsPath, os: TargetOs) -> (r: FsPath)
        ensures
            r@ == spec_in_dir(
                spec_in_dir(spec_in_dir(dir@, "node_modules"@), ".bin"@),
                Self::spec_binary_name(os),
            ),
    {
        proof {
            reveal_strlit("node_modules");
            reveal_strlit(".bin");
            assert("node_modules"@ =~= seq![
                'n', 'o', 'd', 'e', '_', 'm', 'o', 'd', 'u', 'l', 'e', 's',
            ]);
            assert(".bin"@ =~= seq!['.', 'b', 'i', 'n']);
        }
        let modules = dir.join_name("node_modules");
        let bin_dir = modules.join_name(".bin");
        bin_dir.join_name(Self::binary_name(os))
    }
}

impl Tool for Parcel {
    open spec fn spec_name() -> Seq<char> {
        "parcel"@
    }

    open spec fn spec_binary_name(os: TargetOs) -> Seq<char> {
        if os == TargetOs::Windows {
            "parcel.cmd"@
        } else {
            "parcel"@
        }
    }

    open spec fn spec_default_version() -> Version {
        Version::make(2, 8, Some(3))
    }

    open spec fn spec_test_version_args() -> Seq<Seq<char>> {
        seq!["--version"@]
    }

    open spec fn parse_version_accepts(s: Seq<char>) -> bool {
        true
    }

    /// The output is the version alone, `0.0.0`.
    open spec fn spec_parse_version(s: Seq<char>) -> Result<Version, ToolError> {
        lift_version(Version::spec_from_str(trim(s)))
    }

    open spec fn spec_included_files(os: TargetOs) -> Seq<Seq<char>> {
        Seq::empty()
    }

    closed spec fn spec_binary_path(&self) -> PathView {
        self.0@
    }

    fn name() -> (r: &'static str) {
        "parcel"
    }

    fn binary_name(os: TargetOs) -> (r: &'static str) {
        proof {
            reveal_strlit("parcel.cmd");
            reveal_strlit("parcel");
            assert("parcel.cmd"@ =~= seq!['p', 'a', 'r', 'c', 'e', 'l', '.', 'c', 'm', 'd']);
            assert("parcel"@ =~= seq!['p', 'a', 'r', 'c', 'e', 'l']);
        }
        if os == TargetOs::Windows {
            "parcel.cmd"
        } else {
            "parcel"
        }
    }

    fn default_version() -> (r: Version) {
        Version::new(2, 8, Some(3))
    }

    fn test_version_args() -> (r: Vec<&'static str>) {
        let r = vec!["--version"];
        assert(r@.map_values(|a: &str| a@) =~= seq!["--version"@]);
        r
    }

    fn can_parse_version(s: &str) -> (r: bool) {
        true
    }

    fn parse_version(s: &str) -> (r: Result<Version, ToolError>) {
        lift_version_result(Version::from_str(trim_str(s)))
    }

    fn included_files(os: TargetOs) -> (r: Vec<&'static str>) {
        let r: Vec<&'static str> = Vec::new();
        assert(r@.map_values(|a: &str| a@) =~= Seq::<Seq<char>>::empty());
        r
    }

    fn binary_path(&self) -> (r: &FsPath) {
        &self.0
    }
}

/// Parcel reads back the version it prints: the version alone on a line.
pub proof fn lemma_reads_printed_version(v: Version)
    ensures
        Parcel::parse_version_accepts(v.spec_to_string() + seq!['\n']),
        Parcel::spec_parse_version(v.spec_to_string() + seq!['\n']) == Ok::<Version, ToolError>(v),
{
    lemma_version_text(v);
    let t = v.spec_to_string();
    lemma_digits_and_dots_plain(t);
    lemma_trim_line(t);
    lemma_version_string_roundtrip(v);
}

} // verus!
