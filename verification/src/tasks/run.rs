//! Running the built application: where its executable is and what
//! environment it gets.
use vstd::prelude::*;
use crate::cli::build_options::{same_build_options, spec_profile_dir, BuildOptions};
use crate::cli::dev_options::RunOptions;
use crate::path::{
    last_dot, lemma_concat_no_sep, lemma_last_dot, lemma_last_dot_ext, lemma_last_dot_plain,
    lemma_name_parts_no_sep, lemma_push_component, name_extension, name_stem, spec_file_name,
    spec_push_text, valid_component, wf_path, FsPath, PathView,
};
use crate::platform::TargetOs;
use crate::text::{dec, push_decimal};

verus! {

/// The task of the `run` command.
#[derive(Debug)]
pub struct RunTask {
    /// The options of the build.
    pub options: BuildOptions,
    /// The server path where the static files are served.
    pub static_dir: String,
    /// The host to run the server.
    pub host: String,
    /// The port to run the server.
    pub port: u16,
    /// Whether the application runs in watch mode.
    pub is_dev: bool,
    /// Additional environment variables, in the order they were set.
    pub envs: Vec<(&'static str, String)>,
}

/// The environment an ordered list of variables gives: a later value of a
/// name replaces an earlier one.
pub open spec fn env_map(s: Seq<(Seq<char>, Seq<char>)>) -> Map<Seq<char>, Seq<char>>
    decreases s.len(),
{
    if s.len() == 0 {
        Map::empty()
    } else {
        env_map(s.drop_last()).insert(s.last().0, s.last().1)
    }
}

/// The texts of a list of variables with static names.
pub open spec fn static_env_views(s: Seq<(&'static str, String)>) -> Seq<(Seq<char>, Seq<char>)> {
    s.map_values(|e: (&'static str, String)| (e.0@, e.1@))
}

/// The texts of a list of variables.
pub open spec fn env_views(s: Seq<(String, String)>) -> Seq<(Seq<char>, Seq<char>)> {
    s.map_values(|e: (String, String)| (e.0@, e.1@))
}

/// The variables the server gets: its host, port, static directory and
/// library name, then the additional ones in order.
pub open spec fn spec_server_envs(
    host: Seq<char>,
    port: u16,
    static_dir: Seq<char>,
    wasm_lib: Seq<char>,
    extra: Seq<(Seq<char>, Seq<char>)>,
) -> Seq<(Seq<char>, Seq<char>)> {
    seq![
        ("HASHIRA_HOST"@, host),
        ("HASHIRA_PORT"@, dec(port as nat)),
        ("HASHIRA_STATIC_DIR"@, static_dir),
        ("HASHIRA_WASM_LIB"@, wasm_lib),
    ] + extra
}

/// The file name of the executable on a system: `{name}.exe` on Windows.
pub open spec fn spec_binary_name(exec_name: Seq<char>, os: TargetOs) -> Seq<char> {
    if os == TargetOs::Windows {
        exec_name + ".exe"@
    } else {
        exec_name
    }
}

/// A path with a suffix added to the stem of its file name, keeping the
/// extension; a path without a file name gets the suffix pushed onto it.
/// The new name, or the suffix, is read as a path text, as
/// `Path::with_file_name` and `Path::join` read it.
pub open spec fn spec_append_suffix(p: PathView, suffix: Seq<char>) -> PathView {
    match spec_file_name(p) {
        Some(n) => {
            let stem = name_stem(n);
            let name = match name_extension(n) {
                Some(e) => stem + suffix + "."@ + e,
                None => stem + suffix,
            };
            spec_push_text(PathView { absolute: p.absolute, parts: p.parts.drop_last() }, name)
        },
        None => spec_push_text(p, suffix),
    }
}

/// Adds a suffix to the stem of the file name of a path.
pub fn append_suffix(path: &FsPath, suffix: &str) -> (r: FsPath)
    ensures
        r@ == spec_append_suffix(path@, suffix@),
{
    match path.file_stem() {
        Some(stem) => {
            let mut name = stem;
            name.append(suffix);
            match path.extension() {
                Some(ext) => {
                    name.append(".");
                    name.append(ext.as_str());
                },
                None => {},
            }
            proof {
                reveal_strlit(".");
            }
            let parent = path.parent().unwrap();
            parent.push_text(name.as_str())
        },
        None => path.push_text(suffix),
    }
}

impl RunTask {
    /// The task for the given options: not in watch mode, with no
    /// additional variables.
    pub fn new(options: RunOptions) -> (r: RunTask)
        ensures
            same_build_options(r.options, options.build_opts),
            r.static_dir@ == options.static_dir@,
            r.host@ == options.host@,
            r.port == options.port,
            !r.is_dev,
            r.envs@.len() == 0,
    {
        let build = BuildOptions::from_run(&options);
        RunTask {
            options: build,
            host: options.host,
            port: options.port,
            is_dev: false,
            static_dir: options.static_dir,
            envs: Vec::new(),
        }
    }

    /// Sets an additional variable, replacing an earlier value of the name.
    pub fn env(&mut self, name: &'static str, value: String)
        ensures
            static_env_views(final(self).envs@) == static_env_views(old(self).envs@).push(
                (name@, value@),
            ),
            env_map(static_env_views(final(self).envs@)) == env_map(
                static_env_views(old(self).envs@),
            ).insert(name@, value@),
            final(self).options == old(self).options,
            final(self).static_dir == old(self).static_dir,
            final(self).host == old(self).host,
            final(self).port == old(self).port,
            final(self).is_dev == old(self).is_dev,
    {
        let ghost before = self.envs@;
        let ghost v = value@;
        self.envs.push((name, value));
        assert(static_env_views(self.envs@) =~= static_env_views(before).push((name@, v)));
        assert(static_env_views(self.envs@).drop_last() =~= static_env_views(before));
    }

    /// The variables the server is run with: its host, port, static
    /// directory and the name of the client library, then the additional
    /// ones in the order they were set.
    pub fn server_envs(&self, wasm_lib: String) -> (r: Vec<(String, String)>)
        ensures
            env_views(r@) == spec_server_envs(
                self.host@,
                self.port,
                self.static_dir@,
                wasm_lib@,
                static_env_views(self.envs@),
            ),
    {
        let mut port = String::new();
        push_decimal(&mut port, self.port as u32);
        let mut r: Vec<(String, String)> = vec![
            (String::from_str("HASHIRA_HOST"), self.host.clone()),
            (String::from_str("HASHIRA_PORT"), port),
            (String::from_str("HASHIRA_STATIC_DIR"), self.static_dir.clone()),
            (String::from_str("HASHIRA_WASM_LIB"), wasm_lib),
        ];
        let ghost fixed = env_views(r@);
        let ghost extra = static_env_views(self.envs@);
        assert(fixed =~= spec_server_envs(
            self.host@,
            self.port,
            self.static_dir@,
            wasm_lib@,
            Seq::empty(),
        ));
        let mut i: usize = 0;
        while i < self.envs.len()
            invariant
                i <= self.envs.len(),
                extra == static_env_views(self.envs@),
                env_views(r@) =~= fixed + extra.take(i as int),
            decreases self.envs.len() - i,
        {
            let ghost before = r@;
            let (name, value) = &self.envs[i];
            let entry = (String::from_str(*name), value.clone());
            r.push(entry);
            assert(env_views(r@) =~= env_views(before).push((name@, value@)));
            assert(extra.take(i + 1) =~= extra.take(i as int).push(extra[i as int]));
            i = i + 1;
        }
        assert(extra.take(self.envs.len() as int) =~= extra);
        r
    }
}

/// The file name of the executable on a system: `{name}.exe` on Windows.
pub fn binary_name(exec_name: String, os: TargetOs) -> (r: String)
    ensures
        r@ == spec_binary_name(exec_name@, os),
{
    if os == TargetOs::Windows {
        let mut s = exec_name;
        s.append(".exe");
        s
    } else {
        exec_name
    }
}

/// The executable of the build in the directory of its profile.
pub open spec fn spec_executable(profile_dir: PathView, binary: Seq<char>) -> PathView {
    PathView { absolute: profile_dir.absolute, parts: profile_dir.parts.push(binary) }
}

/// The executable run in watch mode: a copy of the built one, with `_dev`
/// after its stem, so the build can replace the original while it runs.
pub open spec fn spec_dev_copy(exec_path: PathView) -> PathView {
    spec_append_suffix(exec_path, "_dev"@)
}

/// The executable of the build, in the directory of its profile.
pub fn executable_in(profile_dir: &FsPath, binary: &str) -> (r: FsPath)
    requires
        valid_component(binary@),
    ensures
        r@ == spec_executable(profile_dir@, binary@),
        profile_dir.wf() ==> r.wf(),
{
    profile_dir.join_name(binary)
}

/// Where the copy of the executable run in watch mode goes.
pub fn dev_copy(exec_path: &FsPath) -> (r: FsPath)
    ensures
        r@ == spec_dev_copy(exec_path@),
{
    proof {
        reveal_strlit("_dev");
        assert("_dev"@ =~= seq!['_', 'd', 'e', 'v']);
    }
    append_suffix(exec_path, "_dev")
}

/// Whether the executable is copied before it runs: only in watch mode,
/// and only when it exists.
pub fn runs_dev_copy(exists: bool, is_dev: bool) -> (r: bool)
    ensures
        r == (exists && is_dev),
{
    exists && is_dev
}

/// Where the server executable is when running the options: the file
/// `{exec_name}.exe` in the profile directory of the target directory,
/// which `detect` finds when the options give none.
pub fn get_executable_path<F: FnOnce() -> Result<FsPath, String>>(
    opts: &RunOptions,
    exec_name: &str,
    detect: F,
) -> (r: Result<FsPath, String>)
    requires
        opts.build_opts.target_dir is None ==> detect.requires(()),
        valid_component(exec_name@),
    ensures
        ({
            let file = exec_name@ + ".exe"@;
            match opts.build_opts.target_dir {
                Some(p) => r matches Ok(q) && q@ == spec_executable(
                    spec_profile_dir(p@, opts.build_opts.release),
                    file,
                ),
                None => exists|d: Result<FsPath, String>|
                    #![trigger detect.ensures((), d)]
                    detect.ensures((), d) && match d {
                        Ok(t) => r matches Ok(q) && q@ == spec_executable(
                            spec_profile_dir(t@, opts.build_opts.release),
                            file,
                        ),
                        Err(m) => r matches Err(n) && n@ == m@,
                    },
            }
        }),
{
    let dir = match opts.build_opts.profile_target_dir(detect) {
        Ok(d) => d,
        Err(m) => {
            return Err(m);
        },
    };
    let mut file = String::from_str(exec_name);
    file.append(".exe");
    proof {
        reveal_strlit(".exe");
        assert(".exe"@ =~= seq!['.', 'e', 'x', 'e']);
        lemma_concat_no_sep(exec_name@, ".exe"@);
    }
    Ok(dir.join_name(file.as_str()))
}

/// A suffix put after the stem of a file name keeps the extension: the new
/// name's stem is the old stem followed by the suffix, its extension is the
/// old one, and the directory stays.
pub proof fn lemma_append_suffix_keeps_extension(p: PathView, suffix: Seq<char>)
    requires
        wf_path(p),
        spec_file_name(p) is Some,
        valid_component(suffix),
        !suffix.contains('.'),
    ensures
        ({
            let n = spec_file_name(p).unwrap();
            let q = spec_append_suffix(p, suffix);
            &&& q.absolute == p.absolute
            &&& q.parts.drop_last() == p.parts.drop_last()
            &&& spec_file_name(q) matches Some(m) && name_stem(m) == name_stem(n) + suffix
                && name_extension(m) == name_extension(n)
        }),
{
    let n = spec_file_name(p).unwrap();
    lemma_last_dot(n);
    let stem = name_stem(n);
    let parent = PathView { absolute: p.absolute, parts: p.parts.drop_last() };
    reveal_strlit(".");
    assert("."@ =~= seq!['.']);
    assert(valid_component(p.parts[p.parts.len() - 1]));
    lemma_name_parts_no_sep(n);
    lemma_concat_no_sep(stem, suffix);
    let name = match name_extension(n) {
        Some(e) => {
            lemma_concat_no_sep(stem + suffix, "."@);
            lemma_concat_no_sep(stem + suffix + "."@, e);
            stem + suffix + "."@ + e
        },
        None => stem + suffix,
    };
    assert(name.len() >= 2) by {
        lemma_last_dot(n);
    }
    lemma_push_component(parent, name);
    let q = spec_append_suffix(p, suffix);
    assert(q.parts.drop_last() =~= p.parts.drop_last());
    let m = q.parts.last();
    match name_extension(n) {
        Some(e) => {
            let k = last_dot(n);
            assert(e == n.skip(k + 1));
            assert forall|i: int| 0 <= i < e.len() implies #[trigger] e[i] != '.' by {
                assert(e[i] == n[i + k + 1]);
            }
            assert(m == stem + suffix + "."@ + e);
            reveal_strlit(".");
            assert("."@ =~= seq!['.']);
            lemma_last_dot_ext(stem + suffix, e);
            let a = stem + suffix;
            assert(m.take(a.len() as int) =~= a);
            assert(m.skip(a.len() as int + 1) =~= e);
            assert(m[a.len() - 1] == suffix.last());
            assert(m != seq!['.'] && m != seq!['.', '.']) by {
                assert(suffix[suffix.len() - 1] != '.');
                if m == seq!['.'] || m == seq!['.', '.'] {
                    assert(m[a.len() - 1] == '.');
                }
            }
        },
        None => {
            assert(stem == n);
            assert(m == n + suffix);
            lemma_last_dot_plain(n, suffix);
            assert(m[m.len() - 1] == suffix.last());
            assert(suffix[suffix.len() - 1] != '.');
            assert(m != seq!['.'] && m != seq!['.', '.']) by {
                if m == seq!['.'] || m == seq!['.', '.'] {
                    assert(m[m.len() - 1] == '.');
                }
            }
        },
    }
}

/// Only Windows gives an executable the `.exe` ending: on every other
/// system its file name is its name, and on Windows it is the name
/// followed by `.exe`.
pub proof fn lemma_exe_only_on_windows(exec_name: Seq<char>, os: TargetOs)
    ensures
        os != TargetOs::Windows ==> spec_binary_name(exec_name, os) == exec_name,
        os == TargetOs::Windows ==> spec_binary_name(exec_name, os) == exec_name + seq![
            '.',
            'e',
            'x',
            'e',
        ],
{
    reveal_strlit(".exe");
    assert(".exe"@ =~= seq!['.', 'e', 'x', 'e']);
}

} // verus!
