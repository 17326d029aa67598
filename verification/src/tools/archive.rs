//! Which kind of archive a download is, and which of its entries a file
//! to extract matches.
use vstd::prelude::*;
use crate::path::{spec_join, FsPath, PathView};
use crate::text::{ends_with, ends_with_str, lemma_ends_with_append, lemma_not_ends_with};

verus! {

/// Options for extracting.
#[derive(Debug, Clone, Copy, PartialEq, Eq, Structural)]
pub struct ExtractOptions {
    /// Skip the base path.
    pub skip_base: bool,
    /// Preserve the path of the files when extracted.
    pub preserve_dir: bool,
}

impl ExtractOptions {
    /// Neither skips the base path nor preserves directories.
    pub fn default_options() -> (r: ExtractOptions)
        ensures
            !r.skip_base,
            !r.preserve_dir,
    {
        ExtractOptions { skip_base: false, preserve_dir: false }
    }

    /// The way entries are matched under these options.
    pub fn behavior(&self) -> (r: ExtractBehavior)
        ensures
            r@ == (if self.skip_base {
                BehaviorView::SkipBasePath
            } else {
                BehaviorView::Exact
            }),
    {
        if self.skip_base {
            ExtractBehavior::SkipBasePath
        } else {
            ExtractBehavior::Exact
        }
    }
}

/// How an archive entry is matched against the file to extract.
#[derive(Debug)]
pub enum ExtractBehavior {
    /// The entry path must be the file path.
    Exact,
    /// The entry path without its first component must be the file path.
    SkipBasePath,
    /// The entry path must be the file path inside the given directory.
    Dir(FsPath),
}

/// The value of an `ExtractBehavior`.
pub enum BehaviorView {
    Exact,
    SkipBasePath,
    Dir(PathView),
}

impl View for ExtractBehavior {
    type V = BehaviorView;

    open spec fn view(&self) -> BehaviorView {
        match self {
            ExtractBehavior::Exact => BehaviorView::Exact,
            ExtractBehavior::SkipBasePath => BehaviorView::SkipBasePath,
            ExtractBehavior::Dir(d) => BehaviorView::Dir(d@),
        }
    }
}

/// A path without its first component, as relative: the root of an
/// absolute path counts as its first component.
pub open spec fn drop_base(p: PathView) -> PathView {
    if p.absolute {
        PathView { absolute: false, parts: p.parts }
    } else if p.parts.len() > 0 {
        PathView { absolute: false, parts: p.parts.drop_first() }
    } else {
        PathView { absolute: false, parts: Seq::empty() }
    }
}

/// Whether an archive entry is the file to extract.
pub open spec fn spec_entry_matches(entry: PathView, file: PathView, behavior: BehaviorView) -> bool {
    match behavior {
        BehaviorView::Exact => entry == file,
        BehaviorView::SkipBasePath => drop_base(entry) == file,
        BehaviorView::Dir(d) => entry == spec_join(d, file),
    }
}

/// Whether two paths are the same, component by component.
pub fn same_path(a: &FsPath, b: &FsPath) -> (r: bool)
    ensures
        r == (a@ == b@),
{
    if a.absolute != b.absolute || a.parts.len() != b.parts.len() {
        assert(a@.parts.len() == a.parts@.len() && b@.parts.len() == b.parts@.len());
        return false;
    }
    let r = a.starts_with(b);
    assert(a@.parts.len() == a.parts@.len() && b@.parts.len() == b.parts@.len());
    assert(a@.parts.take(b@.parts.len() as int) =~= a@.parts);
    r
}

/// Whether an archive entry is the file to extract.
pub fn entry_matches(entry: &FsPath, file: &FsPath, behavior: &ExtractBehavior) -> (r: bool)
    ensures
        r == spec_entry_matches(entry@, file@, behavior@),
{
    match behavior {
        ExtractBehavior::Exact => same_path(entry, file),
        ExtractBehavior::SkipBasePath => {
            let stripped = if entry.absolute {
                FsPath { absolute: false, parts: entry.duplicate().parts }
            } else if entry.parts.len() > 0 {
                let base = FsPath::relative(vec![entry.parts[0].clone()]);
                assert(entry@.parts.take(1) =~= base@.parts);
                entry.strip_prefix(&base).unwrap()
            } else {
                FsPath::relative(Vec::new())
            };
            assert(stripped@ == drop_base(entry@)) by {
                if !entry@.absolute && entry@.parts.len() > 0 {
                    assert(entry@.parts.skip(1) =~= entry@.parts.drop_first());
                } else if !entry@.absolute {
                    assert(stripped@.parts =~= Seq::<Seq<char>>::empty());
                }
            }
            same_path(&stripped, file)
        },
        ExtractBehavior::Dir(d) => {
            let full = d.join(file);
            same_path(entry, &full)
        },
    }
}

/// The kinds of downloaded file.
#[derive(Debug, Clone, Copy, PartialEq, Eq, Structural)]
pub enum ArchiveKind {
    /// A gzip compressed tar archive.
    TarGz,
    /// A zip archive.
    Zip,
    /// A file that is not an archive.
    Plain,
}

/// The kind of a downloaded file by the ending of its path.
pub open spec fn spec_archive_kind(path: Seq<char>) -> ArchiveKind {
    if ends_with(path, ".tar.gz"@) {
        ArchiveKind::TarGz
    } else if ends_with(path, ".zip"@) {
        ArchiveKind::Zip
    } else {
        ArchiveKind::Plain
    }
}

impl ArchiveKind {
    /// The kind of a downloaded file by the ending of its path.
    pub fn of_path(path: &str) -> (r: ArchiveKind)
        ensures
            r == spec_archive_kind(path@),
    {
        if ends_with_str(path, ".tar.gz") {
            ArchiveKind::TarGz
        } else if ends_with_str(path, ".zip") {
            ArchiveKind::Zip
        } else {
            ArchiveKind::Plain
        }
    }
}

/// The compressed file.
#[derive(Debug)]
pub struct Compressed(pub FsPath);

/// A decompressor for a file.
#[derive(Debug)]
pub enum Decompressor {
    /// A `tar.gz` decompressor
    TarGz(Compressed),
    /// A `zip` decompressor.
    Zip(Compressed),
}

/// Why no decompressor was found.
#[derive(Debug, Clone, Copy, PartialEq, Eq, Structural)]
pub enum DecompressError {
    /// The file does not exist.
    NotFound,
    /// The path is not valid text.
    InvalidPath,
}

impl Decompressor {
    /// The path of the file to decompress.
    pub open spec fn spec_path(&self) -> PathView {
        match self {
            Decompressor::TarGz(Compressed(p)) => p@,
            Decompressor::Zip(Compressed(p)) => p@,
        }
    }

    /// Gets a decompressor for the given path, by its ending: `tar.gz` or
    /// `zip`. A path with neither ending gives `None`: its contents are
    /// copied as they are. `exists` tells whether the file exists and `text`
    /// is the path as text, if it is valid text.
    pub fn get(file_path: FsPath, exists: bool, text: Option<&str>) -> (r: Result<
        Option<Decompressor>,
        DecompressError,
    >)
        ensures
            !exists ==> r == Err::<Option<Decompressor>, DecompressError>(DecompressError::NotFound),
            exists ==> match text {
                None => r == Err::<Option<Decompressor>, DecompressError>(
                    DecompressError::InvalidPath,
                ),
                Some(t) => if ends_with(t@, "tar.gz"@) {
                    r matches Ok(Some(d)) && d is TarGz && d.spec_path() == file_path@
                } else if ends_with(t@, "zip"@) {
                    r matches Ok(Some(d)) && d is Zip && d.spec_path() == file_path@
                } else {
                    r == Ok::<Option<Decompressor>, DecompressError>(None)
                },
            },
    {
        if !exists {
            return Err(DecompressError::NotFound);
        }
        let t = match text {
            Some(t) => t,
            None => {
                return Err(DecompressError::InvalidPath);
            },
        };
        let compressed = Compressed(file_path);
        if ends_with_str(t, "tar.gz") {
            Ok(Some(Decompressor::TarGz(compressed)))
        } else if ends_with_str(t, "zip") {
            Ok(Some(Decompressor::Zip(compressed)))
        } else {
            Ok(None)
        }
    }
}

/// A path ending in `.tar.gz` is a gzip compressed tar archive.
pub proof fn lemma_kind_tar_gz(a: Seq<char>)
    ensures
        spec_archive_kind(a + ".tar.gz"@) == ArchiveKind::TarGz,
{
    reveal_strlit(".tar.gz");
    assert(".tar.gz"@.skip(0) =~= ".tar.gz"@);
    lemma_ends_with_append(a, ".tar.gz"@, ".tar.gz"@);
}

/// A path ending in a text that ends in `.tar.gz` is a gzip compressed
/// tar archive.
pub proof fn lemma_kind_tar_gz_tail(a: Seq<char>, tail: Seq<char>)
    requires
        ends_with(tail, ".tar.gz"@),
    ensures
        spec_archive_kind(a + tail) == ArchiveKind::TarGz,
{
    lemma_ends_with_append(a, tail, ".tar.gz"@);
}

/// A path ending in a text that ends in `.zip` is a zip archive.
pub proof fn lemma_kind_zip_tail(a: Seq<char>, tail: Seq<char>)
    requires
        ends_with(tail, ".zip"@),
    ensures
        spec_archive_kind(a + tail) == ArchiveKind::Zip,
{
    reveal_strlit(".tar.gz");
    reveal_strlit(".zip");
    assert(".zip"@.last() == 'p');
    assert(".tar.gz"@.last() == 'z');
    assert(tail.skip(tail.len() - 4).last() == tail.last());
    assert((a + tail).last() == tail.last());
    lemma_not_ends_with(a + tail, ".tar.gz"@);
    lemma_ends_with_append(a, tail, ".zip"@);
}

/// A path that ends in neither `z` nor `p` is no archive.
pub proof fn lemma_kind_plain(s: Seq<char>)
    requires
        s.len() > 0,
        s.last() != 'z',
        s.last() != 'p',
    ensures
        spec_archive_kind(s) == ArchiveKind::Plain,
{
    reveal_strlit(".tar.gz");
    reveal_strlit(".zip");
    assert(".zip"@.last() == 'p');
    assert(".tar.gz"@.last() == 'z');
    lemma_not_ends_with(s, ".tar.gz"@);
    lemma_not_ends_with(s, ".zip"@);
}

} // verus!
