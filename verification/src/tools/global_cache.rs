//! Where the tools are found: a cache of executable paths by name, the
//! system path, and downloads into the cache directory.
use vstd::prelude::*;
use crate::path::{valid_component, FsPath, PathView};
use crate::platform::TargetOs;
use crate::tools::archive::ExtractOptions;
use crate::tools::{assert_include_files, spec_check_include, Tool, ToolError};
use crate::version::Version;

verus! {

/// Which version of a tool found on the system is accepted.
#[derive(Debug, Clone, Copy, PartialEq, Eq, Structural)]
pub enum FindVersion {
    /// Only the tool's default version.
    Exact,
    /// Any version.
    Any,
}

/// Why a tool could not be taken from the cache or the system.
#[derive(Debug)]
pub enum GlobalCacheError {
    /// The binary was not found.
    NotFound(String),
    /// The binary found has another version than the one expected.
    InvalidVersion { expected: String, actual: String },
    /// Another failure, by its message.
    Other(String),
}

/// The value of a cache error.
pub enum CacheErrorView {
    NotFound(Seq<char>),
    InvalidVersion { expected: Seq<char>, actual: Seq<char> },
    Other(Seq<char>),
}

impl View for GlobalCacheError {
    type V = CacheErrorView;

    open spec fn view(&self) -> CacheErrorView {
        match self {
            GlobalCacheError::NotFound(b) => CacheErrorView::NotFound(b@),
            GlobalCacheError::InvalidVersion { expected, actual } => CacheErrorView::InvalidVersion {
                expected: expected@,
                actual: actual@,
            },
            GlobalCacheError::Other(m) => CacheErrorView::Other(m@),
        }
    }
}

/// The text of a cache error.
pub open spec fn spec_cache_error_message(e: CacheErrorView) -> Seq<char> {
    match e {
        CacheErrorView::NotFound(b) => "the binary "@ + b + " was not found"@,
        CacheErrorView::InvalidVersion { expected, actual } => "expected version "@ + expected
            + " but was "@ + actual,
        CacheErrorView::Other(m) => m,
    }
}

impl GlobalCacheError {
    /// An error of another kind, by its message.
    pub fn new(error: String) -> (r: GlobalCacheError)
        ensures
            r@ == CacheErrorView::Other(error@),
    {
        GlobalCacheError::Other(error)
    }

    /// An error of another kind, from the message of a failed step.
    pub fn from_anyhow(error: String) -> (r: GlobalCacheError)
        ensures
            r@ == CacheErrorView::Other(error@),
    {
        Self::new(error)
    }

    /// A description of the error.
    pub fn message(&self) -> (r: String)
        ensures
            r@ == spec_cache_error_message(self@),
    {
        match self {
            GlobalCacheError::NotFound(b) => {
                let mut s = String::from_str("the binary ");
                s.append(b.as_str());
                s.append(" was not found");
                s
            },
            GlobalCacheError::InvalidVersion { expected, actual } => {
                let mut s = String::from_str("expected version ");
                s.append(expected.as_str());
                s.append(" but was ");
                s.append(actual.as_str());
                s
            },
            GlobalCacheError::Other(m) => m.clone(),
        }
    }
}

/// The paths of the tool binaries and files already found, by name.
#[derive(Debug)]
pub struct GlobalCache {
    entries: Vec<(String, FsPath)>,
}

/// The map that a list of entries stands for: a later entry of a name
/// replaces an earlier one.
pub open spec fn entries_map(s: Seq<(String, FsPath)>) -> Map<Seq<char>, PathView>
    decreases s.len(),
{
    if s.len() == 0 {
        Map::empty()
    } else {
        entries_map(s.drop_last()).insert(s.last().0@, s.last().1@)
    }
}

impl View for GlobalCache {
    type V = Map<Seq<char>, PathView>;

    closed spec fn view(&self) -> Map<Seq<char>, PathView> {
        entries_map(self.entries@)
    }
}

/// How a search goes on after one place was looked at.
#[derive(Debug)]
pub enum SearchNext {
    /// The binary was found here.
    Use(FsPath),
    /// It was not found here; the next place is tried.
    Fallback,
    /// The search failed.
    Fail(GlobalCacheError),
}

impl GlobalCache {
    /// An empty cache.
    pub fn new() -> (r: GlobalCache)
        ensures
            r@ == Map::<Seq<char>, PathView>::empty(),
    {
        let r = GlobalCache { entries: Vec::new() };
        assert(r@ == entries_map(Seq::empty()));
        r
    }

    /// The path cached under a name.
    pub fn get(&self, name: &str) -> (r: Option<FsPath>)
        ensures
            self@.contains_key(name@) ==> (r matches Some(p) && p@ == self@[name@]),
            !self@.contains_key(name@) ==> r is None,
    {
        let mut i: usize = self.entries.len();
        assert(self.entries@.take(i as int) =~= self.entries@);
        assert(self@ == entries_map(self.entries@));
        while i > 0
            invariant
                i <= self.entries.len(),
                self@ == entries_map(self.entries@),
                self@.contains_key(name@) == entries_map(self.entries@.take(i as int)).contains_key(
                    name@,
                ),
                self@.contains_key(name@) ==> self@[name@] == entries_map(
                    self.entries@.take(i as int),
                )[name@],
            decreases i,
        {
            assert(self.entries@.take(i as int).drop_last() =~= self.entries@.take(i - 1));
            let entry = &self.entries[i - 1];
            if crate::text::str_eq(entry.0.as_str(), name) {
                return Some(entry.1.duplicate());
            }
            i = i - 1;
        }
        assert(self.entries@.take(0) =~= Seq::<(String, FsPath)>::empty());
        None
    }

    /// Caches a path under a name, replacing the one cached before.
    pub fn insert(&mut self, name: String, path: FsPath)
        ensures
            final(self)@ == old(self)@.insert(name@, path@),
    {
        let ghost before = self.entries@;
        self.entries.push((name, path));
        assert(self.entries@.drop_last() =~= before);
    }
}

/// The options of an installation.
#[derive(Debug)]
pub struct InstallToolOptions {
    /// The address of the release to download.
    pub url: String,
    /// The directory to install in; the cache directory when none.
    pub dest: Option<FsPath>,
    /// How the files are taken out of the download.
    pub extract_opts: ExtractOptions,
    /// Which version found on the system is accepted.
    pub find_version: FindVersion,
    /// The least version of a system binary that is used instead of a download.
    pub min_version: Option<Version>,
}

/// The place of a file in a directory.
pub open spec fn spec_in_dir(dir: PathView, name: Seq<char>) -> PathView {
    PathView { absolute: dir.absolute, parts: dir.parts.push(name) }
}

/// The outcome of a search of the system for a tool, before the cache is
/// updated: the include files are checked first, then whether the binary
/// was found, then whether its version could be read, then whether the
/// version is accepted.
pub open spec fn spec_system_search<T: Tool>(
    os: TargetOs,
    found: Option<(PathView, Result<Version, Seq<char>>)>,
    opts: FindVersion,
) -> Result<(PathView, Version), CacheErrorView> {
    match spec_check_include(T::spec_included_files(os), T::spec_binary_name(os)) {
        Err(e) => Err(CacheErrorView::Other(e.spec_message())),
        Ok(_) => match found {
            None => Err(CacheErrorView::NotFound(T::spec_binary_name(os))),
            Some((p, tested)) => match tested {
                Err(m) => Err(CacheErrorView::Other(m)),
                Ok(v) => if opts == FindVersion::Any || v == T::spec_default_version() {
                    Ok((p, v))
                } else {
                    Err(
                        CacheErrorView::InvalidVersion {
                            expected: T::spec_default_version().spec_to_string(),
                            actual: v.spec_to_string(),
                        },
                    )
                },
            },
        },
    }
}

/// The value of what the system search was handed.
pub open spec fn found_view(found: Option<(FsPath, Result<Version, String>)>) -> Option<
    (PathView, Result<Version, Seq<char>>),
> {
    match found {
        None => None,
        Some((p, Ok(v))) => Some((p@, Ok(v))),
        Some((p, Err(m))) => Some((p@, Err(m@))),
    }
}

/// The value of the result of a system search.
pub open spec fn system_result_view(r: Result<(FsPath, Version), GlobalCacheError>) -> Result<
    (PathView, Version),
    CacheErrorView,
> {
    match r {
        Ok((p, v)) => Ok((p@, v)),
        Err(e) => Err(e@),
    }
}

/// Where a tool is installed.
#[derive(Debug)]
pub enum InstallPlace {
    /// Into the directory given.
    Dir(FsPath),
    /// Into the cache directory.
    Cache,
}

/// What happened in the last step of loading a tool.
#[derive(Debug)]
pub enum LoadEvent {
    /// Loading starts, with the directory to install in, if one is given.
    Start(Option<FsPath>),
    /// The system was searched: the binary found there if it is usable.
    SystemChecked(Option<FsPath>),
    /// The cache, or the system and the cache, was searched.
    Searched(Result<FsPath, GlobalCacheError>),
}

/// What to do next when loading a tool.
#[derive(Debug)]
pub enum LoadStep {
    /// Search the system.
    SearchSystem,
    /// Search the cache.
    SearchCache,
    /// Use the binary at this path.
    Use(FsPath),
    /// Install the tool.
    Install(InstallPlace),
    /// Loading failed.
    Fail(GlobalCacheError),
}

/// The next step of loading a tool: a directory given is installed into;
/// otherwise the system is searched, a usable binary found there is used,
/// else the cache is searched; what the search finds is used, a binary not
/// found is installed into the cache, and any other failure ends loading.
pub fn next_load_step(event: LoadEvent) -> (r: LoadStep)
    ensures
        match event {
            LoadEvent::Start(Some(d)) => r matches LoadStep::Install(InstallPlace::Dir(e)) && e@ == d@,
            LoadEvent::Start(None) => r is SearchSystem,
            LoadEvent::SystemChecked(Some(p)) => r matches LoadStep::Use(q) && q@ == p@,
            LoadEvent::SystemChecked(None) => r is SearchCache,
            LoadEvent::Searched(Ok(p)) => r matches LoadStep::Use(q) && q@ == p@,
            LoadEvent::Searched(Err(GlobalCacheError::NotFound(_))) => r matches LoadStep::Install(
                InstallPlace::Cache,
            ),
            LoadEvent::Searched(Err(e)) => r matches LoadStep::Fail(f) && f@ == e@,
        },
{
    match event {
        LoadEvent::Start(Some(d)) => LoadStep::Install(InstallPlace::Dir(d)),
        LoadEvent::Start(None) => LoadStep::SearchSystem,
        LoadEvent::SystemChecked(Some(p)) => LoadStep::Use(p),
        LoadEvent::SystemChecked(None) => LoadStep::SearchCache,
        LoadEvent::Searched(Ok(p)) => LoadStep::Use(p),
        LoadEvent::Searched(Err(GlobalCacheError::NotFound(b))) => LoadStep::Install(InstallPlace::Cache),
        LoadEvent::Searched(Err(e)) => LoadStep::Fail(e),
    }
}

/// The binary a search of the system found, when it is usable.
pub fn usable_system_path(found: Result<(FsPath, Version), GlobalCacheError>, usable: bool) -> (r:
    Option<FsPath>)
    ensures
        match found {
            Ok((p, _)) => if usable {
                r matches Some(q) && q@ == p@
            } else {
                r is None
            },
            Err(_) => r is None,
        },
{
    match found {
        Ok((p, _)) => if usable {
            Some(p)
        } else {
            None
        },
        Err(_) => None,
    }
}

impl GlobalCache {
    /// The path where a tool's binary is looked for in the cache directory.
    pub fn cache_candidate<T: Tool>(cache_dir: &FsPath, os: TargetOs) -> (r: FsPath)
        ensures
            r@ == spec_in_dir(cache_dir@, T::spec_binary_name(os)),
    {
        cache_dir.join_name(T::binary_name(os))
    }

    /// Takes a tool from the cache: the path cached under its binary name,
    /// else the candidate in the cache directory if it exists, which is
    /// then cached. `candidate_exists` tells whether the candidate of
    /// `cache_candidate` exists.
    pub fn find<T: Tool>(
        &mut self,
        os: TargetOs,
        cache_dir: &FsPath,
        candidate_exists: bool,
    ) -> (r: Result<FsPath, GlobalCacheError>)
        ensures
            ({
                let bin = T::spec_binary_name(os);
                if old(self)@.contains_key(bin) {
                    &&& r matches Ok(p) && p@ == old(self)@[bin]
                    &&& final(self)@ == old(self)@
                } else if candidate_exists {
                    &&& r matches Ok(p) && p@ == spec_in_dir(cache_dir@, bin)
                    &&& final(self)@ == old(self)@.insert(bin, spec_in_dir(cache_dir@, bin))
                } else {
                    &&& r matches Err(e) && e@ == CacheErrorView::NotFound(bin)
                    &&& final(self)@ == old(self)@
                }
            }),
    {
        let bin_name = T::binary_name(os);
        match self.get(bin_name) {
            Some(p) => Ok(p),
            None => {
                let bin_path = Self::cache_candidate::<T>(cache_dir, os);
                if !candidate_exists {
                    return Err(GlobalCacheError::NotFound(String::from_str(bin_name)));
                }
                self.insert(String::from_str(bin_name), bin_path.duplicate());
                Ok(bin_path)
            },
        }
    }

    /// Takes a tool from the system. `found` is the binary found on the
    /// system path, if any, with the version it reported or the message of
    /// the failure to read it. An accepted binary is cached under its name.
    pub fn find_in_system<T: Tool>(
        &mut self,
        os: TargetOs,
        found: Option<(FsPath, Result<Version, String>)>,
        opts: FindVersion,
    ) -> (r: Result<(FsPath, Version), GlobalCacheError>)
        ensures
            system_result_view(r) == spec_system_search::<T>(os, found_view(found), opts),
            match r {
                Ok((p, _)) => final(self)@ == old(self)@.insert(T::spec_binary_name(os), p@),
                Err(_) => final(self)@ == old(self)@,
            },
    {
        match assert_include_files::<T>(os) {
            Err(e) => {
                return Err(GlobalCacheError::from_anyhow(String::from_str(e.message())));
            },
            Ok(_) => {},
        }
        let bin_name = T::binary_name(os);
        let (bin_path, tested) = match found {
            None => {
                return Err(GlobalCacheError::NotFound(String::from_str(bin_name)));
            },
            Some(f) => f,
        };
        let version = match tested {
            Err(m) => {
                return Err(GlobalCacheError::from_anyhow(m));
            },
            Ok(v) => v,
        };
        let default_version = T::default_version();
        let match_default_version = version.same_as(&default_version);
        if opts == FindVersion::Any || match_default_version {
            self.insert(String::from_str(bin_name), bin_path.duplicate());
            return Ok((bin_path, version));
        }
        Err(
            GlobalCacheError::InvalidVersion {
                expected: default_version.to_string(),
                actual: version.to_string(),
            },
        )
    }

    /// Takes a tool from the system, else from the cache. The system is
    /// searched as `find_in_system` does with `found`; only when the binary
    /// is not found there is the cache asked, as `find` does, in the cache
    /// directory `cache_dir` (or the failure to know it), where
    /// `candidate_exists` tells whether the candidate of `cache_candidate`
    /// exists. Any other failure of the system search is the result.
    pub fn find_any<T: Tool>(
        &mut self,
        os: TargetOs,
        found: Option<(FsPath, Result<Version, String>)>,
        opts: FindVersion,
        cache_dir: Result<FsPath, String>,
        candidate_exists: bool,
    ) -> (r: Result<FsPath, GlobalCacheError>)
        ensures
            ({
                let bin = T::spec_binary_name(os);
                match spec_system_search::<T>(os, found_view(found), opts) {
                    Ok((p, _)) => {
                        &&& r matches Ok(q) && q@ == p
                        &&& final(self)@ == old(self)@.insert(bin, p)
                    },
                    Err(CacheErrorView::NotFound(_)) => if old(self)@.contains_key(bin) {
                        &&& r matches Ok(q) && q@ == old(self)@[bin]
                        &&& final(self)@ == old(self)@
                    } else {
                        match cache_dir {
                            Err(m) => {
                                &&& r matches Err(e) && e@ == CacheErrorView::Other(m@)
                                &&& final(self)@ == old(self)@
                            },
                            Ok(d) => if candidate_exists {
                                &&& r matches Ok(q) && q@ == spec_in_dir(d@, bin)
                                &&& final(self)@ == old(self)@.insert(bin, spec_in_dir(d@, bin))
                            } else {
                                &&& r matches Err(e) && e@ == CacheErrorView::NotFound(bin)
                                &&& final(self)@ == old(self)@
                            },
                        }
                    },
                    Err(e) => {
                        &&& r matches Err(f) && f@ == e
                        &&& final(self)@ == old(self)@
                    },
                }
            }),
    {
        match assert_include_files::<T>(os) {
            Err(e) => {
                return Err(GlobalCacheError::from_anyhow(String::from_str(e.message())));
            },
            Ok(_) => {},
        }
        match Self::after_system_search(self.find_in_system::<T>(os, found, opts)) {
            SearchNext::Use(p) => Ok(p),
            SearchNext::Fail(e) => Err(e),
            SearchNext::Fallback => {
                match self.get(T::binary_name(os)) {
                    Some(p) => Ok(p),
                    None => match cache_dir {
                        Err(m) => Err(GlobalCacheError::from_anyhow(m)),
                        Ok(d) => self.find::<T>(os, &d, candidate_exists),
                    },
                }
            },
        }
    }

    /// What follows a search of the system when looking for a tool
    /// anywhere: a binary found is used, one not found sends the search to
    /// the cache, and any other failure ends it.
    pub fn after_system_search(r: Result<(FsPath, Version), GlobalCacheError>) -> (n: SearchNext)
        ensures
            match r {
                Ok((p, _)) => n matches SearchNext::Use(q) && q@ == p@,
                Err(GlobalCacheError::NotFound(_)) => n is Fallback,
                Err(e) => n matches SearchNext::Fail(f) && f@ == e@,
            },
    {
        match r {
            Ok((p, _)) => SearchNext::Use(p),
            Err(GlobalCacheError::NotFound(_)) => SearchNext::Fallback,
            Err(e) => SearchNext::Fail(e),
        }
    }

    /// Whether a binary found on the system is installed in place of a
    /// download: only when a least version is given and it is met.
    pub fn system_binary_usable(
        found: &Result<(FsPath, Version), GlobalCacheError>,
        min_version: &Option<Version>,
    ) -> (r: bool)
        ensures
            r == (found matches Ok((_, v)) && min_version matches Some(m) && Version::le(*m, *v)),
    {
        match (found, min_version) {
            (Ok((_, v)), Some(m)) => v.is_at_least(m),
            _ => false,
        }
    }

    /// The files taken out of a download: the binary alone when the tool
    /// declares no include files, else those files; refused when the
    /// include files are not consistent.
    pub fn download_targets<T: Tool>(os: TargetOs) -> (r: Result<Vec<&'static str>, ToolError>)
        ensures
            match spec_check_include(T::spec_included_files(os), T::spec_binary_name(os)) {
                Err(e) => r == Err::<Vec<&'static str>, ToolError>(e),
                Ok(_) => r matches Ok(v) && v@.map_values(|a: &str| a@) == (
                if T::spec_included_files(os).len() == 0 {
                    seq![T::spec_binary_name(os)]
                } else {
                    T::spec_included_files(os)
                }),
            },
    {
        match assert_include_files::<T>(os) {
            Err(e) => Err(e),
            Ok(_) => {
                let files = T::included_files(os);
                if files.len() == 0 {
                    let r = vec![T::binary_name(os)];
                    assert(r@.map_values(|a: &str| a@) =~= seq![T::spec_binary_name(os)]);
                    Ok(r)
                } else {
                    Ok(files)
                }
            },
        }
    }

    /// Where the binary stands after a download into a directory.
    pub fn downloaded_binary<T: Tool>(dest: &FsPath, os: TargetOs) -> (r: FsPath)
        ensures
            r@ == spec_in_dir(dest@, T::spec_binary_name(os)),
    {
        dest.join_name(T::binary_name(os))
    }
}

/// A path cached under a name is what the cache gives for the name
/// afterwards, and the other names keep what they had.
pub proof fn lemma_cache_read_after_write(
    cache: Map<Seq<char>, PathView>,
    name: Seq<char>,
    path: PathView,
    other: Seq<char>,
)
    requires
        other != name,
    ensures
        cache.insert(name, path).contains_key(name),
        cache.insert(name, path)[name] == path,
        cache.insert(name, path).contains_key(other) == cache.contains_key(other),
        cache.contains_key(other) ==> cache.insert(name, path)[other] == cache[other],
{
}

} // verus!
