//! The external tools the build needs: how each is named, which version is
//! expected, how its version output reads and where it is downloaded from.
pub mod archive;
pub mod cargo_generate;
pub mod global_cache;
pub mod node_js;
pub mod npm;
pub mod npx;
pub mod parcel;
pub mod sass;
pub mod tailwindcss;
pub mod wasm_bindgen;

use vstd::prelude::*;
use crate::path::{last_component, spec_last_component, valid_component, FsPath, PathView};
use crate::text::str_eq;
use crate::platform::TargetOs;
use crate::version::{Version, VersionError};

verus! {

/// Why a tool operation was refused.
#[derive(Debug, Clone, Copy, PartialEq, Eq, Structural)]
pub enum ToolError {
    /// No release of the tool exists for this operating system.
    UnsupportedOs,
    /// No release of the tool exists for this architecture.
    UnsupportedArch,
    /// No release of the tool exists for this system and architecture together.
    UnsupportedTarget,
    /// The version text of the tool does not have the expected shape.
    MalformedVersionOutput,
    /// The version number itself is invalid.
    Version(VersionError),
    /// An include file has no component.
    InvalidIncludeFile,
    /// The include files do not name the binary.
    BinaryNotIncluded,
    /// The tool's version follows another tool and cannot be chosen.
    VersionNotSelectable,
    /// The tool's location follows another tool and cannot be chosen.
    InstallDirNotSelectable,
    /// The binary of the tool that this one lives beside has no directory.
    NoParentDirectory,
}

impl ToolError {
    /// The description of the error.
    pub open spec fn spec_message(self) -> Seq<char> {
        match self {
            ToolError::UnsupportedOs => "unsupported OS"@,
            ToolError::UnsupportedArch => "unsupported target architecture"@,
            ToolError::UnsupportedTarget => "no release for this OS and architecture"@,
            ToolError::MalformedVersionOutput => "failed to parse the version output"@,
            ToolError::Version(e) => e.spec_message(),
            ToolError::InvalidIncludeFile => "failed to read include file"@,
            ToolError::BinaryNotIncluded => "binary is not declared within the included files"@,
            ToolError::VersionNotSelectable => "cannot choose the version, it follows the `node` version"@,
            ToolError::InstallDirNotSelectable => "cannot choose the install location, it follows the `node` location"@,
            ToolError::NoParentDirectory => "failed to get node directory"@,
        }
    }

    /// A description of the error.
    pub fn message(&self) -> (r: &'static str)
        ensures
            r@ == self.spec_message(),
    {
        match self {
            ToolError::UnsupportedOs => "unsupported OS",
            ToolError::UnsupportedArch => "unsupported target architecture",
            ToolError::UnsupportedTarget => "no release for this OS and architecture",
            ToolError::MalformedVersionOutput => "failed to parse the version output",
            ToolError::Version(e) => e.message(),
            ToolError::InvalidIncludeFile => "failed to read include file",
            ToolError::BinaryNotIncluded => "binary is not declared within the included files",
            ToolError::VersionNotSelectable => "cannot choose the version, it follows the `node` version",
            ToolError::InstallDirNotSelectable => "cannot choose the install location, it follows the `node` location",
            ToolError::NoParentDirectory => "failed to get node directory",
        }
    }
}

/// How to load a tool: an exact version and a directory to install it in,
/// each optional.
#[derive(Debug)]
pub struct LoadOptions {
    pub version: Option<Version>,
    pub install_dir: Option<FsPath>,
}

impl LoadOptions {
    /// No version and no directory.
    pub fn default_options() -> (r: LoadOptions)
        ensures
            r.version is None,
            r.install_dir is None,
    {
        LoadOptions { version: None, install_dir: None }
    }
}

/// The version of a parse result, with errors of the version text lifted.
pub open spec fn lift_version(r: Result<Version, VersionError>) -> Result<Version, ToolError> {
    match r {
        Ok(v) => Ok(v),
        Err(e) => Err(ToolError::Version(e)),
    }
}

/// Lifts an error of a version text into a tool error.
pub fn lift_version_result(r: Result<Version, VersionError>) -> (o: Result<Version, ToolError>)
    ensures
        o == lift_version(r),
{
    match r {
        Ok(v) => Ok(v),
        Err(e) => Err(ToolError::Version(e)),
    }
}

/// The text of a result that holds a text.
pub open spec fn text_result(r: Result<String, ToolError>) -> Result<Seq<char>, ToolError> {
    match r {
        Ok(s) => Ok(s@),
        Err(e) => Err(e),
    }
}

/// One argument of a command line: a text, or a path given as is.
#[derive(Debug)]
pub enum CommandArg {
    Text(String),
    Path(FsPath),
}

/// The value of a command argument.
pub enum ArgView {
    Text(Seq<char>),
    Path(PathView),
}

impl View for CommandArg {
    type V = ArgView;

    open spec fn view(&self) -> ArgView {
        match self {
            CommandArg::Text(s) => ArgView::Text(s@),
            CommandArg::Path(p) => ArgView::Path(p@),
        }
    }
}

/// The values of a list of command arguments.
pub open spec fn arg_views(v: Seq<CommandArg>) -> Seq<ArgView> {
    v.map_values(|a: CommandArg| a@)
}

/// A text argument.
pub fn text_arg(s: &str) -> (r: CommandArg)
    ensures
        r@ == ArgView::Text(s@),
{
    CommandArg::Text(String::from_str(s))
}

/// What loading a tool whose version and place follow Node.js gives for
/// the options: the version is refused first, then the directory.
pub open spec fn spec_fixed_by_node(version_given: bool, dir_given: bool) -> Result<(), ToolError> {
    if version_given {
        Err(ToolError::VersionNotSelectable)
    } else if dir_given {
        Err(ToolError::InstallDirNotSelectable)
    } else {
        Ok(())
    }
}

/// Checks the options of a tool installed with Node.js: neither a version
/// nor a directory can be chosen for it.
pub fn fixed_by_node(opts: &LoadOptions) -> (r: Result<(), ToolError>)
    ensures
        r == spec_fixed_by_node(opts.version is Some, opts.install_dir is Some),
{
    if opts.version.is_some() {
        return Err(ToolError::VersionNotSelectable);
    }
    if opts.install_dir.is_some() {
        return Err(ToolError::InstallDirNotSelectable);
    }
    Ok(())
}

/// An external tool.
pub trait Tool: Sized {
    /// The name of the tool.
    spec fn spec_name() -> Seq<char>;

    /// The file name of the tool's executable on a system.
    spec fn spec_binary_name(os: TargetOs) -> Seq<char>;

    /// The version installed when none is asked for.
    spec fn spec_default_version() -> Version;

    /// The arguments that make the tool print its version.
    spec fn spec_test_version_args() -> Seq<Seq<char>>;

    /// Whether the version reader accepts a text without panicking.
    spec fn parse_version_accepts(s: Seq<char>) -> bool;

    /// What the version reader gives for the tool's output.
    spec fn spec_parse_version(s: Seq<char>) -> Result<Version, ToolError>;

    /// The files taken from a download; empty when the binary alone is taken.
    spec fn spec_included_files(os: TargetOs) -> Seq<Seq<char>>;

    /// The path of the executable.
    spec fn spec_binary_path(&self) -> PathView;

    /// Name of this tool, mainly used for debugging.
    fn name() -> (r: &'static str)
        ensures
            r@ == Self::spec_name(),
    ;

    /// Name of the executable binary of this tool.
    fn binary_name(os: TargetOs) -> (r: &'static str)
        ensures
            r@ == Self::spec_binary_name(os),
            valid_component(r@),
    ;

    /// Returns the default version of this tool.
    fn default_version() -> (r: Version)
        ensures
            r == Self::spec_default_version(),
    ;

    /// Returns the arguments used to execute the test command of this tool.
    fn test_version_args() -> (r: Vec<&'static str>)
        ensures
            r@.map_values(|a: &str| a@) == Self::spec_test_version_args(),
    ;

    /// Whether the version reader takes the given text.
    fn can_parse_version(s: &str) -> (r: bool)
        ensures
            r == Self::parse_version_accepts(s@),
    ;

    /// Parses the version of this tool from the given string.
    fn parse_version(s: &str) -> (r: Result<Version, ToolError>)
        requires
            Self::parse_version_accepts(s@),
        ensures
            r == Self::spec_parse_version(s@),
    ;

    /// All the files to include from the downloaded file when installing this tool.
    fn included_files(os: TargetOs) -> (r: Vec<&'static str>)
        ensures
            r@.map_values(|a: &str| a@) == Self::spec_included_files(os),
    ;

    /// Returns the path to the executable.
    fn binary_path(&self) -> (r: &FsPath)
        ensures
            r@ == self.spec_binary_path(),
    ;
}

/// Going through the include files in order: the first that has no
/// component is an error, the first whose last component is the binary
/// ends the search; when none names it, the binary is not included.
pub open spec fn spec_scan_include(files: Seq<Seq<char>>, bin: Seq<char>) -> Result<
    Seq<char>,
    ToolError,
>
    decreases files.len(),
{
    if files.len() == 0 {
        Err(ToolError::BinaryNotIncluded)
    } else {
        match spec_last_component(files[0]) {
            None => Err(ToolError::InvalidIncludeFile),
            Some(c) => if c == bin {
                Ok(files[0])
            } else {
                spec_scan_include(files.drop_first(), bin)
            },
        }
    }
}

/// Whether the include files of a tool are consistent: none are declared,
/// or the binary is among them.
pub open spec fn spec_check_include(files: Seq<Seq<char>>, bin: Seq<char>) -> Result<(), ToolError> {
    if files.len() == 0 {
        Ok(())
    } else {
        match spec_scan_include(files, bin) {
            Ok(_) => Ok(()),
            Err(e) => Err(e),
        }
    }
}

/// The file of a download that is the tool's executable: its binary name
/// when no files are declared, else the first declared file named so.
pub open spec fn spec_binary_include_path(files: Seq<Seq<char>>, bin: Seq<char>) -> Seq<char> {
    if files.len() == 0 {
        bin
    } else {
        spec_scan_include(files, bin)->Ok_0
    }
}

/// Scans the include files for the binary.
fn scan_include(files: &Vec<&'static str>, bin: &str) -> (r: Result<&'static str, ToolError>)
    ensures
        match spec_scan_include(files@.map_values(|a: &str| a@), bin@) {
            Ok(f) => r matches Ok(g) && g@ == f,
            Err(e) => r == Err::<&'static str, ToolError>(e),
        },
{
    let ghost all = files@.map_values(|a: &str| a@);
    let mut i: usize = 0;
    assert(all.skip(0) =~= all);
    while i < files.len()
        invariant
            i <= files.len(),
            all == files@.map_values(|a: &str| a@),
            spec_scan_include(all, bin@) == spec_scan_include(all.skip(i as int), bin@),
        decreases files.len() - i,
    {
        let file = files[i];
        assert(all.skip(i as int)[0] == file@);
        assert(all.skip(i as int).drop_first() =~= all.skip(i + 1));
        match last_component(file) {
            None => {
                return Err(ToolError::InvalidIncludeFile);
            },
            Some(c) => {
                if str_eq(c.as_str(), bin) {
                    return Ok(file);
                }
            },
        }
        i = i + 1;
    }
    assert(all.skip(i as int) =~= Seq::<Seq<char>>::empty());
    Err(ToolError::BinaryNotIncluded)
}

/// Checks that the binary of a tool is among its include files, when it
/// declares any.
pub fn assert_include_files<T: Tool>(os: TargetOs) -> (r: Result<(), ToolError>)
    ensures
        r == spec_check_include(T::spec_included_files(os), T::spec_binary_name(os)),
{
    let files = T::included_files(os);
    if files.len() == 0 {
        return Ok(());
    }
    let bin = T::binary_name(os);
    match scan_include(&files, bin) {
        Ok(_) => Ok(()),
        Err(e) => Err(e),
    }
}

/// Returns the actual path of the executable to include.
pub fn binary_include_path<T: Tool>(os: TargetOs) -> (r: &'static str)
    requires
        spec_check_include(T::spec_included_files(os), T::spec_binary_name(os)) is Ok,
    ensures
        r@ == spec_binary_include_path(T::spec_included_files(os), T::spec_binary_name(os)),
{
    let files = T::included_files(os);
    let bin = T::binary_name(os);
    if files.len() == 0 {
        return bin;
    }
    match scan_include(&files, bin) {
        Ok(f) => f,
        Err(_) => bin,
    }
}

/// When the scan of the include files finds the binary, the file found is
/// one of them, and its last component is the binary's name.
pub proof fn lemma_scan_include_found(files: Seq<Seq<char>>, bin: Seq<char>)
    requires
        spec_scan_include(files, bin) is Ok,
    ensures
        files.contains(spec_scan_include(files, bin)->Ok_0),
        spec_last_component(spec_scan_include(files, bin)->Ok_0) == Some(bin),
    decreases files.len(),
{
    if files.len() > 0 {
        match spec_last_component(files[0]) {
            Some(c) => if c != bin {
                lemma_scan_include_found(files.drop_first(), bin);
                let f = spec_scan_include(files.drop_first(), bin)->Ok_0;
                let k = choose|k: int| 0 <= k < files.drop_first().len() && files.drop_first()[k] == f;
                assert(files[k + 1] == f);
            } else {
                assert(files[0] == spec_scan_include(files, bin)->Ok_0);
            },
            None => {},
        }
    }
}

/// The file of a download that is a tool's executable: when the tool's
/// include files are consistent and it declares some, the file is one of
/// them and its last component is the binary's name; when it declares
/// none, it is the binary's name itself.
pub proof fn lemma_binary_include_path_names_binary<T: Tool>(os: TargetOs)
    requires
        spec_check_include(T::spec_included_files(os), T::spec_binary_name(os)) is Ok,
    ensures
        ({
            let files = T::spec_included_files(os);
            let bin = T::spec_binary_name(os);
            let p = spec_binary_include_path(files, bin);
            if files.len() == 0 {
                p == bin
            } else {
                files.contains(p) && spec_last_component(p) == Some(bin)
            }
        }),
{
    let files = T::spec_included_files(os);
    let bin = T::spec_binary_name(os);
    if files.len() > 0 {
        lemma_scan_include_found(files, bin);
    }
}

/// The declared file at `k` names the binary, and every file declared
/// before it has a last component.
pub open spec fn binary_declared_at(files: Seq<Seq<char>>, bin: Seq<char>, k: int) -> bool {
    &&& 0 <= k < files.len()
    &&& spec_last_component(files[k]) == Some(bin)
    &&& forall|j: int| 0 <= j < k ==> (#[trigger] spec_last_component(files[j])) is Some
}

/// The scan finds the binary exactly when some declared file names it and
/// every file before that one has a last component.
pub proof fn lemma_scan_include_ok(files: Seq<Seq<char>>, bin: Seq<char>)
    ensures
        spec_scan_include(files, bin) is Ok <==> exists|k: int| binary_declared_at(files, bin, k),
    decreases files.len(),
{
    if files.len() > 0 {
        let rest = files.drop_first();
        lemma_scan_include_ok(rest, bin);
        match spec_last_component(files[0]) {
            None => {
                assert forall|k: int| !binary_declared_at(files, bin, k) by {
                    if binary_declared_at(files, bin, k) && k > 0 {
                        assert(spec_last_component(files[0]) is Some);
                    }
                }
            },
            Some(c) => if c == bin {
                assert(binary_declared_at(files, bin, 0));
            } else {
                if spec_scan_include(rest, bin) is Ok {
                    let k = choose|k: int| binary_declared_at(rest, bin, k);
                    assert forall|j: int| 0 <= j < k + 1 implies (#[trigger] spec_last_component(
                        files[j],
                    )) is Some by {
                        if j > 0 {
                            assert(files[j] == rest[j - 1]);
                        }
                    }
                    assert(files[k + 1] == rest[k]);
                    assert(binary_declared_at(files, bin, k + 1));
                }
                assert forall|k: int| binary_declared_at(files, bin, k) implies binary_declared_at(
                    rest,
                    bin,
                    k - 1,
                ) by {
                    assert(k != 0);
                    assert(rest[k - 1] == files[k]);
                    assert forall|j: int| 0 <= j < k - 1 implies (#[trigger] spec_last_component(
                        rest[j],
                    )) is Some by {
                        assert(rest[j] == files[j + 1]);
                    }
                }
            },
        }
    }
}

/// A tool's include files pass the check exactly when none are declared,
/// or some declared file has the binary's name as its last component and
/// every file declared before it has a last component.
pub proof fn lemma_include_check_law<T: Tool>(os: TargetOs)
    ensures
        spec_check_include(T::spec_included_files(os), T::spec_binary_name(os)) is Ok <==> (
        T::spec_included_files(os).len() == 0 || exists|k: int|
            binary_declared_at(T::spec_included_files(os), T::spec_binary_name(os), k)),
{
    lemma_scan_include_ok(T::spec_included_files(os), T::spec_binary_name(os));
}

/// The name of the file a download is saved as: the last piece of its
/// address after a `/`.
pub fn download_file_name(url: &str) -> (r: String)
    ensures
        r@ == crate::text::split(url@, '/').last(),
{
    let pieces = crate::text::split_str(url, '/');
    proof {
        crate::text::lemma_split_nonempty(url@, '/');
    }
    let n = pieces.len();
    String::from_str(pieces[n - 1])
}

/// The version a tool is loaded at: the one asked for, else its default.
pub fn requested_version<T: Tool>(opts: &LoadOptions) -> (r: Version)
    ensures
        r == match opts.version {
            Some(v) => v,
            None => T::spec_default_version(),
        },
{
    match opts.version {
        Some(v) => v,
        None => T::default_version(),
    }
}

} // verus!
