//! npx, the package runner that comes with Node.js.
use vstd::prelude::*;
use crate::path::{spec_parent, valid_component, FsPath, PathView};
use crate::platform::TargetOs;
use crate::text::{trim, trim_str};
use crate::tools::node_js::NodeJs;
use crate::tools::{
    arg_views, lift_version, lift_version_result, text_arg, ArgView, CommandArg, Tool, ToolError,
};
use crate::version::Version;

use crate::text::{lemma_digits_and_dots_plain, lemma_trim_line, lemma_trim_plain};
use crate::version::{lemma_version_string_roundtrip, lemma_version_text};
verus! {

/// The npx launcher, by the path of its executable.
#[derive(Debug)]
pub struct Npx(FsPath);

/// The file name of the npx launcher on a system.
pub open spec fn spec_npx_binary(os: TargetOs) -> Seq<char> {
    if os == TargetOs::Windows {
        "npx.cmd"@
    } else {
        "npx"@
    }
}

impl Npx {
    /// The npx launcher installed beside the given Node.js executable.
    pub fn from_node(node: &NodeJs, os: TargetOs) -> (r: Result<Npx, ToolError>)
        ensures
            match spec_parent(node.spec_binary_path()) {
                Some(d) => r matches Ok(n) && n.spec_binary_path() == PathView {
                    absolute: d.absolute,
                    parts: d.parts.push(spec_npx_binary(os)),
                },
                None => r matches Err(e) && e == ToolError::NoParentDirectory,
            },
    {
        let name = Self::binary_name(os);
        match node.sibling(name) {
            Ok(p) => Ok(Npx(p)),
            Err(e) => Err(e),
        }
    }

    /// The arguments that run a package globally: `{package}`.
    pub fn exec_global(&self, package: String) -> (r: Vec<CommandArg>)
        ensures
            arg_views(r@) == seq![ArgView::Text(package@)],
    {
        let r = vec![CommandArg::Text(package)];
        assert(arg_views(r@) =~= seq![ArgView::Text(package@)]);
        r
    }

    /// The arguments that run a package in the given directory:
    /// `{package} --prefix {dir}`.
    pub fn exec_cmd(&self, package: String, dir: &FsPath) -> (r: Vec<CommandArg>)
        ensures
            arg_views(r@) == seq![
                ArgView::Text(package@),
                ArgView::Text("--prefix"@),
                ArgView::Path(dir@),
            ],
    {
        let r = vec![CommandArg::Text(package), text_arg("--prefix"), CommandArg::Path(dir.duplicate())];
        assert(arg_views(r@) =~= seq![
            ArgView::Text(package@),
            ArgView::Text("--prefix"@),
            ArgView::Path(dir@),
        ]);
        r
    }
}

impl Tool for Npx {
    open spec fn spec_name() -> Seq<char> {
        "npx"@
    }

    open spec fn spec_binary_name(os: TargetOs) -> Seq<char> {
        spec_npx_binary(os)
    }

    /// The npx that comes with Node.js 16.20.0.
    open spec fn spec_default_version() -> Version {
        Version::make(8, 18, Some(4))
    }

    open spec fn spec_test_version_args() -> Seq<Seq<char>> {
        seq!["--version"@]
    }

    open spec fn parse_version_accepts(s: Seq<char>) -> bool {
        true
    }

    /// The output is the version alone.
    open spec fn spec_parse_version(s: Seq<char>) -> Result<Version, ToolError> {
        lift_version(Version::spec_from_str(trim(s)))
    }

    open spec fn spec_included_files(os: TargetOs) -> Seq<Seq<char>> {
        Seq::empty()
    }

    closed spec fn spec_binary_path(&self) -> PathView {
        self.0@
    }

    fn name() -> (r: &'static str) {
        "npx"
    }

    fn binary_name(os: TargetOs) -> (r: &'static str) {
        proof {
            reveal_strlit("npx.cmd");
            reveal_strlit("npx");
            assert("npx.cmd"@ =~= seq!['n', 'p', 'x', '.', 'c', 'm', 'd']);
            assert("npx"@ =~= seq!['n', 'p', 'x']);
        }
        if os == TargetOs::Windows {
            "npx.cmd"
        } else {
            "npx"
        }
    }

    fn default_version() -> (r: Version) {
        Version::new(8, 18, Some(4))
    }

    fn test_version_args() -> (r: Vec<&'static str>) {
        let r = vec!["--version"];
        assert(r@.map_values(|a: &str| a@) =~= seq!["--version"@]);
        r
    }

    fn can_parse_version(s: &str) -> (r: bool) {
        true
    }

    fn parse_version(s: &str) -> (r: Result<Version, ToolError>) {
        lift_version_result(Version::from_str(trim_str(s)))
    }

    fn included_files(os: TargetOs) -> (r: Vec<&'static str>) {
        let r: Vec<&'static str> = Vec::new();
        assert(r@.map_values(|a: &str| a@) =~= Seq::<Seq<char>>::empty());
        r
    }

    fn binary_path(&self) -> (r: &FsPath) {
        &self.0
    }
}

/// npx reads back the version it prints: the version alone on a line.
pub proof fn lemma_reads_printed_version(v: Version)
    ensures
        Npx::parse_version_accepts(v.spec_to_string() + seq!['\n']),
        Npx::spec_parse_version(v.spec_to_string() + seq!['\n']) == Ok::<Version, ToolError>(v),
{
    lemma_version_text(v);
    let t = v.spec_to_string();
    lemma_digits_and_dots_plain(t);
    lemma_trim_line(t);
    lemma_version_string_roundtrip(v);
}

} // verus!
