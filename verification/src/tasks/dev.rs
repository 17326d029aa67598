//! Watch mode: which changes rebuild what, and how the application is
//! restarted with live reload.
use vstd::prelude::*;
use crate::cli::build_options::{same_build_options, BuildOptions};
use crate::cli::dev_options::DevOptions;
use crate::path::{copy_paths, opt_view, paths_view, spec_join, spec_starts_with, FsPath, PathView};
use crate::tasks::run::{env_map, static_env_views, RunTask};
use crate::text::{dec, push_decimal};

verus! {

/// The task of the `dev` command.
#[derive(Debug)]
pub struct DevTask {
    /// The options of the build.
    pub options: BuildOptions,
    /// The server path where the static files are served.
    pub static_dir: String,
    /// The host to run the server.
    pub host: String,
    /// The port to run the server.
    pub port: u16,
    /// The host of the reload server.
    pub reload_host: String,
    /// The port of the reload server.
    pub reload_port: u16,
    /// Additional paths to watch.
    pub watch: Vec<FsPath>,
    /// Paths to ignore while waiting for changes.
    pub ignore: Vec<FsPath>,
}

/// The paths whose changes are ignored: those given, the git directory and
/// ignore file, and the target directory when one is given.
pub open spec fn spec_ignore_list(ignore: Seq<PathView>, target_dir: Option<PathView>) -> Seq<
    PathView,
> {
    let git = seq![
        PathView { absolute: false, parts: seq![".git"@] },
        PathView { absolute: false, parts: seq![".gitignore"@] },
    ];
    let target = match target_dir {
        Some(t) => seq![t],
        None => Seq::empty(),
    };
    ignore + git + target
}

/// Whether a changed path lies within one of the ignored paths; a path
/// that could not be resolved, and an ignored path that does not exist,
/// count for nothing.
pub open spec fn spec_is_ignored(event: Option<PathView>, ignores: Seq<Option<PathView>>) -> bool {
    match event {
        None => false,
        Some(e) => exists|j: int|
            0 <= j < ignores.len() && #[trigger] ignores[j] is Some && spec_starts_with(
                e,
                ignores[j]->0,
            ),
    }
}

/// The values of a list of optional paths.
pub open spec fn opt_paths_view(v: Seq<Option<FsPath>>) -> Seq<Option<PathView>> {
    v.map_values(|o: Option<FsPath>| opt_view(o))
}

/// What a change leads to: the first run always builds and runs; later,
/// a change outside `src/` only rebuilds the assets, and one inside it
/// stops the running application and builds and runs it again.
#[derive(Debug, Clone, Copy, PartialEq, Eq, Structural)]
pub enum ChangeAction {
    Run,
    RebuildAssets,
    InterruptAndRun,
}

/// Whether the application may be built and launched: one launch at a time.
#[derive(Debug)]
pub struct RunGate {
    pub can_run: bool,
}

impl DevTask {
    /// The task for the given options, watching no paths beyond the
    /// current directory.
    pub fn new(options: DevOptions) -> (r: DevTask)
        ensures
            same_build_options(r.options, options.build_opts),
            r.static_dir@ == options.static_dir@,
            r.host@ == options.host@,
            r.port == options.port,
            r.reload_host@ == options.reload_host@,
            r.reload_port == options.reload_port,
            r.watch@.len() == 0,
            paths_view(r.ignore@) == paths_view(options.ignore@),
    {
        let build = BuildOptions::from_dev(&options);
        DevTask {
            options: build,
            host: options.host,
            port: options.port,
            static_dir: options.static_dir,
            reload_host: options.reload_host,
            reload_port: options.reload_port,
            watch: Vec::new(),
            ignore: options.ignore,
        }
    }

    /// The paths whose changes are ignored.
    pub fn ignore_list(&self) -> (r: Vec<FsPath>)
        ensures
            paths_view(r@) == spec_ignore_list(
                paths_view(self.ignore@),
                opt_view(self.options.target_dir),
            ),
    {
        let mut r = copy_paths(&self.ignore);
        let git = FsPath::relative(vec![String::from_str(".git")]);
        let gitignore = FsPath::relative(vec![String::from_str(".gitignore")]);
        assert(git@.parts =~= seq![".git"@]);
        assert(gitignore@.parts =~= seq![".gitignore"@]);
        r.push(git);
        r.push(gitignore);
        match &self.options.target_dir {
            Some(t) => r.push(t.duplicate()),
            None => {},
        }
        assert(paths_view(r@) =~= spec_ignore_list(
            paths_view(self.ignore@),
            opt_view(self.options.target_dir),
        ));
        r
    }

    /// The task that builds and runs the application in watch mode, with
    /// the variables that enable live reload: the reload server's host and
    /// port, and the flag itself.
    pub fn run_task(&self) -> (r: RunTask)
        ensures
            same_build_options(r.options, self.options),
            r.static_dir@ == self.static_dir@,
            r.host@ == self.host@,
            r.port == self.port,
            r.is_dev,
            static_env_views(r.envs@) == seq![
                ("HASHIRA_LIVE_RELOAD_HOST"@, self.reload_host@),
                ("HASHIRA_LIVE_RELOAD_PORT"@, dec(self.reload_port as nat)),
                ("HASHIRA_LIVE_RELOAD"@, "1"@),
            ],
    {
        let mut port = String::new();
        push_decimal(&mut port, self.reload_port as u32);
        let mut task = RunTask {
            options: self.options.duplicate(),
            static_dir: self.static_dir.clone(),
            host: self.host.clone(),
            port: self.port,
            is_dev: true,
            envs: Vec::new(),
        };
        task.env("HASHIRA_LIVE_RELOAD_HOST", self.reload_host.clone());
        task.env("HASHIRA_LIVE_RELOAD_PORT", port);
        task.env("HASHIRA_LIVE_RELOAD", String::from_str("1"));
        assert(static_env_views(task.envs@) =~= seq![
            ("HASHIRA_LIVE_RELOAD_HOST"@, self.reload_host@),
            ("HASHIRA_LIVE_RELOAD_PORT"@, dec(self.reload_port as nat)),
            ("HASHIRA_LIVE_RELOAD"@, "1"@),
        ]);
        task
    }

    /// The address of the reload server: `{host}:{port}`.
    pub fn reload_address(&self) -> (r: String)
        ensures
            r@ == self.reload_host@ + ":"@ + dec(self.reload_port as nat),
    {
        let mut s = self.reload_host.clone();
        s.append(":");
        push_decimal(&mut s, self.reload_port as u32);
        s
    }
}

/// Whether a resolved changed path lies within one of the resolved
/// ignored paths.
fn is_ignored(event: &Option<FsPath>, ignores: &Vec<Option<FsPath>>) -> (r: bool)
    ensures
        r == spec_is_ignored(opt_view(*event), opt_paths_view(ignores@)),
{
    let e = match event {
        None => {
            return false;
        },
        Some(e) => e,
    };
    let ghost gs = opt_paths_view(ignores@);
    let mut j: usize = 0;
    while j < ignores.len()
        invariant
            j <= ignores.len(),
            gs == opt_paths_view(ignores@),
            opt_view(*event) == Some(e@),
            forall|k: int|
                0 <= k < j ==> !(#[trigger] gs[k] is Some && spec_starts_with(e@, gs[k]->0)),
        decreases ignores.len() - j,
    {
        assert(gs[j as int] == opt_view(ignores@[j as int]));
        match &ignores[j] {
            Some(g) => {
                if e.starts_with(g) {
                    assert(gs[j as int] == Some(g@));
                    return true;
                }
            },
            None => {},
        }
        j = j + 1;
    }
    false
}

/// The changes that do not lie within an ignored path, in their order.
/// `es` holds the resolved path of each change; one that could not be
/// resolved, or an ignored path that does not exist, is none.
pub open spec fn unignored<T>(xs: Seq<T>, es: Seq<Option<PathView>>, gs: Seq<Option<PathView>>) -> Seq<
    T,
>
    decreases xs.len(),
{
    if xs.len() == 0 {
        Seq::empty()
    } else {
        let rest = unignored(xs.drop_first(), es.drop_first(), gs);
        if spec_is_ignored(es[0], gs) {
            rest
        } else {
            seq![xs[0]] + rest
        }
    }
}

/// Removes from the changes every one that lies within an ignored path;
/// the others stay, in their order. `resolved` holds the resolved path of
/// each change, in order.
pub fn remove_ignored_paths<T>(
    events: &mut Vec<T>,
    resolved: &Vec<Option<FsPath>>,
    ignores: &Vec<Option<FsPath>>,
)
    requires
        old(events)@.len() == resolved@.len(),
    ensures
        final(events)@ == unignored(old(events)@, opt_paths_view(resolved@), opt_paths_view(ignores@)),
{
    let ghost xs = events@;
    let ghost es = opt_paths_view(resolved@);
    let ghost gs = opt_paths_view(ignores@);
    let mut i: usize = events.len();
    assert(xs.skip(i as int) =~= Seq::<T>::empty());
    assert(events@ =~= xs.take(i as int) + unignored(xs.skip(i as int), es.skip(i as int), gs));
    while i > 0
        invariant
            i <= xs.len(),
            xs.len() == es.len(),
            es == opt_paths_view(resolved@),
            gs == opt_paths_view(ignores@),
            events@ == xs.take(i as int) + unignored(xs.skip(i as int), es.skip(i as int), gs),
        decreases i,
    {
        let ghost rest = unignored(xs.skip(i as int), es.skip(i as int), gs);
        proof {
            assert(xs.skip(i - 1).drop_first() =~= xs.skip(i as int));
            assert(es.skip(i - 1).drop_first() =~= es.skip(i as int));
            assert(xs.skip(i - 1)[0] == xs[i - 1]);
            assert(es.skip(i - 1)[0] == es[i - 1]);
            assert(es[i - 1] == opt_view(resolved@[i - 1]));
        }
        if is_ignored(&resolved[i - 1], ignores) {
            events.remove(i - 1);
            assert(events@ =~= xs.take(i - 1) + rest);
        } else {
            assert(xs.take(i as int) + rest =~= xs.take(i - 1) + (seq![xs[i - 1]] + rest));
        }
        i = i - 1;
    }
    assert(xs.take(0) + unignored(xs.skip(0), es.skip(0), gs) =~= unignored(xs, es, gs)) by {
        assert(xs.skip(0) =~= xs);
        assert(es.skip(0) =~= es);
    }
}


/// Whether one of the changed files lies within the source directory; the
/// files and the directory are given resolved.
pub fn change_inside_src(files: &Vec<FsPath>, src_dir: &FsPath) -> (r: bool)
    ensures
        r == exists|i: int|
            0 <= i < files@.len() && spec_starts_with(#[trigger] files@[i]@, src_dir@),
{
    let mut i: usize = 0;
    while i < files.len()
        invariant
            i <= files.len(),
            forall|k: int| 0 <= k < i ==> !spec_starts_with(#[trigger] files@[k]@, src_dir@),
        decreases files.len() - i,
    {
        if files[i].starts_with(src_dir) {
            return true;
        }
        i = i + 1;
    }
    false
}

/// What a change leads to.
pub fn change_action(is_first_run: bool, inside_src: bool) -> (r: ChangeAction)
    ensures
        is_first_run ==> r == ChangeAction::Run,
        !is_first_run && !inside_src ==> r == ChangeAction::RebuildAssets,
        !is_first_run && inside_src ==> r == ChangeAction::InterruptAndRun,
{
    if is_first_run {
        ChangeAction::Run
    } else if !inside_src {
        ChangeAction::RebuildAssets
    } else {
        ChangeAction::InterruptAndRun
    }
}

/// Whether the application is launched, and whether the guard is open
/// then: a launch goes only through an open guard, which it closes; when no
/// change is left past the initial launch, the guard is closed and nothing
/// is launched.
pub open spec fn spec_try_start(can_run: bool, events_empty: bool, is_first_run: bool) -> (bool, bool) {
    if !can_run {
        (false, false)
    } else {
        (!(events_empty && !is_first_run), false)
    }
}

/// One launch at a time: once the application is launched, no other
/// launch goes through until the guard is released, whatever the changes.
pub proof fn lemma_gate_exclusive(
    can_run: bool,
    events_empty: bool,
    is_first_run: bool,
    next_empty: bool,
    next_first: bool,
)
    requires
        spec_try_start(can_run, events_empty, is_first_run).0,
    ensures
        !spec_try_start(spec_try_start(can_run, events_empty, is_first_run).1, next_empty, next_first).0,
{
}

impl RunGate {
    /// A guard that lets the initial launch through.
    pub fn new() -> (r: RunGate)
        ensures
            r.can_run,
    {
        RunGate { can_run: true }
    }

    /// Whether the application is launched now. Nothing is launched while
    /// another launch holds the guard. Otherwise the guard is taken, and the
    /// launch goes on unless no change is left past the initial launch; in
    /// that case the guard stays taken.
    pub fn try_start(&mut self, events_empty: bool, is_first_run: bool) -> (r: bool)
        ensures
            (r, final(self).can_run) == spec_try_start(old(self).can_run, events_empty, is_first_run),
    {
        if !self.can_run {
            return false;
        }
        self.can_run = false;
        if events_empty && !is_first_run {
            return false;
        }
        true
    }

    /// Releases the guard once the application has stopped.
    pub fn finish(&mut self)
        ensures
            final(self).can_run,
    {
        self.can_run = true;
    }
}

/// A change of an existing ignored path itself, or of anything inside it,
/// is ignored.
pub proof fn lemma_within_ignored_is_ignored(
    gs: Seq<Option<PathView>>,
    j: int,
    g: PathView,
    rel: PathView,
)
    requires
        0 <= j < gs.len(),
        gs[j] == Some(g),
        !rel.absolute,
    ensures
        spec_is_ignored(Some(g), gs),
        spec_is_ignored(Some(spec_join(g, rel)), gs),
{
    assert(g.parts.take(g.parts.len() as int) =~= g.parts);
    let e = spec_join(g, rel);
    assert(e.parts.take(g.parts.len() as int) =~= g.parts);
    assert(gs[j] is Some && spec_starts_with(g, gs[j]->0));
    assert(gs[j] is Some && spec_starts_with(e, gs[j]->0));
}

/// Every change kept is one of the changes given whose path is not ignored.
pub proof fn lemma_kept_changes_not_ignored<T>(
    xs: Seq<T>,
    es: Seq<Option<PathView>>,
    gs: Seq<Option<PathView>>,
)
    requires
        xs.len() == es.len(),
    ensures
        forall|m: int|
            0 <= m < unignored(xs, es, gs).len() ==> exists|k: int|
                0 <= k < xs.len() && xs[k] == #[trigger] unignored(xs, es, gs)[m]
                    && !spec_is_ignored(es[k], gs),
    decreases xs.len(),
{
    if xs.len() > 0 {
        let rest = unignored(xs.drop_first(), es.drop_first(), gs);
        lemma_kept_changes_not_ignored(xs.drop_first(), es.drop_first(), gs);
        let r = unignored(xs, es, gs);
        assert forall|m: int| 0 <= m < r.len() implies exists|k: int|
            0 <= k < xs.len() && xs[k] == #[trigger] r[m] && !spec_is_ignored(es[k], gs) by {
            if spec_is_ignored(es[0], gs) {
                assert(r == rest);
                let k = choose|k: int|
                    0 <= k < xs.drop_first().len() && xs.drop_first()[k] == #[trigger] rest[m]
                        && !spec_is_ignored(es.drop_first()[k], gs);
                assert(xs[k + 1] == r[m] && es[k + 1] == es.drop_first()[k]);
            } else if m == 0 {
                assert(r[0] == xs[0]);
            } else {
                assert(r[m] == rest[m - 1]);
                let k = choose|k: int|
                    0 <= k < xs.drop_first().len() && xs.drop_first()[k] == #[trigger] rest[m - 1]
                        && !spec_is_ignored(es.drop_first()[k], gs);
                assert(xs[k + 1] == r[m] && es[k + 1] == es.drop_first()[k]);
            }
        }
    }
}

/// A change whose path is an existing ignored path, or lies within one, is
/// removed: numbering the changes, its number is not among those kept.
pub proof fn lemma_changes_within_ignored_removed(
    es: Seq<Option<PathView>>,
    gs: Seq<Option<PathView>>,
    i: int,
    j: int,
    g: PathView,
    rel: PathView,
)
    requires
        0 <= i < es.len(),
        0 <= j < gs.len(),
        gs[j] == Some(g),
        !rel.absolute,
        es[i] == Some(spec_join(g, rel)),
    ensures
        !unignored(Seq::new(es.len(), |k: int| k), es, gs).contains(i),
{
    let xs = Seq::new(es.len(), |k: int| k);
    lemma_within_ignored_is_ignored(gs, j, g, rel);
    lemma_kept_changes_not_ignored(xs, es, gs);
    let r = unignored(xs, es, gs);
    if r.contains(i) {
        let m = choose|m: int| 0 <= m < r.len() && r[m] == i;
        let k = choose|k: int| 0 <= k < xs.len() && xs[k] == #[trigger] r[m] && !spec_is_ignored(es[k], gs);
        assert(xs[k] == k);
    }
}

} // verus!
