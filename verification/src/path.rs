//! File system paths as a root flag and a list of components, with the
//! operations of `std::path` that the tool needs.
use vstd::prelude::*;
use crate::text::{split, split_str, str_eq, str_contains};

verus! {

/// A path: whether it starts at the root, and its components in order.
#[derive(Debug)]
pub struct FsPath {
    pub absolute: bool,
    pub parts: Vec<String>,
}

/// The mathematical value of a path.
pub struct PathView {
    pub absolute: bool,
    pub parts: Seq<Seq<char>>,
}

impl View for FsPath {
    type V = PathView;

    open spec fn view(&self) -> PathView {
        PathView { absolute: self.absolute, parts: views(self.parts@) }
    }
}

/// `base` joined with `other`: `other` itself when it starts at the root,
/// otherwise the components of `base` followed by those of `other`.
pub open spec fn spec_join(base: PathView, other: PathView) -> PathView {
    if other.absolute {
        other
    } else {
        PathView { absolute: base.absolute, parts: base.parts + other.parts }
    }
}

/// The last component, unless the path is empty, is the root alone, or ends
/// in `.` or `..`.
pub open spec fn spec_file_name(p: PathView) -> Option<Seq<char>> {
    if p.parts.len() > 0 && p.parts.last() != seq!['.'] && p.parts.last() != seq!['.', '.'] {
        Some(p.parts.last())
    } else {
        None
    }
}

/// The path without its last component; none for an empty path or the root.
pub open spec fn spec_parent(p: PathView) -> Option<PathView> {
    if p.parts.len() > 0 {
        Some(PathView { absolute: p.absolute, parts: p.parts.drop_last() })
    } else {
        None
    }
}

/// Whether `base` is a leading part of `p`, component by component.
pub open spec fn spec_starts_with(p: PathView, base: PathView) -> bool {
    &&& p.absolute == base.absolute
    &&& base.parts.len() <= p.parts.len()
    &&& p.parts.take(base.parts.len() as int) == base.parts
}

/// `p` relative to `base`, if `base` is a leading part of it.
pub open spec fn spec_strip_prefix(p: PathView, base: PathView) -> Option<PathView> {
    if spec_starts_with(p, base) {
        Some(PathView { absolute: false, parts: p.parts.skip(base.parts.len() as int) })
    } else {
        None
    }
}

/// The index of the last `.` in a name, or -1.
pub open spec fn last_dot(name: Seq<char>) -> int
    decreases name.len(),
{
    if name.len() == 0 {
        -1
    } else if name.last() == '.' {
        name.len() - 1
    } else {
        last_dot(name.drop_last())
    }
}

/// The stem of a file name: the part before the last `.`, or the whole name
/// when it has no `.` other than a leading one.
pub open spec fn name_stem(name: Seq<char>) -> Seq<char> {
    if last_dot(name) < 1 {
        name
    } else {
        name.take(last_dot(name))
    }
}

/// The extension of a file name: the part after the last `.`, unless that
/// `.` is missing or leads the name.
pub open spec fn name_extension(name: Seq<char>) -> Option<Seq<char>> {
    if last_dot(name) < 1 {
        None
    } else {
        Some(name.skip(last_dot(name) + 1))
    }
}

/// The path with its file name replaced by `name`, or `name` added when it has none.
pub open spec fn spec_with_file_name(p: PathView, name: Seq<char>) -> PathView {
    let kept = if spec_file_name(p) is Some {
        p.parts.drop_last()
    } else {
        p.parts
    };
    PathView { absolute: p.absolute, parts: kept.push(name) }
}

/// A text usable as one path component: not empty and free of `/`.
pub open spec fn valid_component(c: Seq<char>) -> bool {
    c.len() > 0 && !c.contains('/')
}

/// Every component of the path is usable as one.
pub open spec fn wf_path(p: PathView) -> bool {
    forall|i: int| 0 <= i < p.parts.len() ==> valid_component(#[trigger] p.parts[i])
}

/// `last_dot` lies within the name and marks a dot when it is not -1.
pub proof fn lemma_last_dot(name: Seq<char>)
    ensures
        -1 <= last_dot(name) < name.len(),
        last_dot(name) >= 0 ==> name[last_dot(name)] == '.',
        forall|i: int| last_dot(name) < i < name.len() ==> name[i] != '.',
    decreases name.len(),
{
    if name.len() > 0 && name.last() != '.' {
        lemma_last_dot(name.drop_last());
        assert forall|i: int| last_dot(name) < i < name.len() implies name[i] != '.' by {
            if i < name.len() - 1 {
                assert(name.drop_last()[i] == name[i]);
            }
        }
    }
}

/// The texts of a list of strings.
pub open spec fn views(v: Seq<String>) -> Seq<Seq<char>> {
    v.map_values(|p: String| p@)
}

/// Adding a string adds its text.
pub proof fn lemma_views_push(v: Seq<String>, x: String)
    ensures
        views(v.push(x)) == views(v).push(x@),
{
    assert(views(v.push(x)) =~= views(v).push(x@));
}

/// Copies a list of strings.
fn copy_strings(v: &Vec<String>) -> (r: Vec<String>)
    ensures
        views(r@) == views(v@),
{
    let mut r: Vec<String> = Vec::new();
    let mut i: usize = 0;
    while i < v.len()
        invariant
            i <= v.len(),
            views(r@) =~= views(v@.take(i as int)),
        decreases v.len() - i,
    {
        let ghost before = r@;
        let c = v[i].clone();
        r.push(c);
        proof {
            lemma_views_push(before, c);
            assert(v@.take(i + 1) =~= v@.take(i as int).push(v@[i as int]));
            lemma_views_push(v@.take(i as int), v@[i as int]);
        }
        i = i + 1;
    }
    assert(v@.take(v.len() as int) =~= v@);
    r
}

impl FsPath {
    /// A relative path made of the given components.
    pub fn relative(parts: Vec<String>) -> (r: FsPath)
        ensures
            !r@.absolute,
            r@.parts == views(parts@),
    {
        FsPath { absolute: false, parts }
    }

    /// A copy of this path.
    pub fn duplicate(&self) -> (r: FsPath)
        ensures
            r@ == self@,
    {
        FsPath { absolute: self.absolute, parts: copy_strings(&self.parts) }
    }

    /// This path followed by `other`; `other` alone when it starts at the root.
    pub fn join(&self, other: &FsPath) -> (r: FsPath)
        ensures
            r@ == spec_join(self@, other@),
    {
        if other.absolute {
            return other.duplicate();
        }
        let mut parts = copy_strings(&self.parts);
        let mut i: usize = 0;
        while i < other.parts.len()
            invariant
                i <= other.parts.len(),
                views(parts@) =~= self@.parts + views(other.parts@.take(i as int)),
            decreases other.parts.len() - i,
        {
            let ghost before = parts@;
            let c = other.parts[i].clone();
            parts.push(c);
            proof {
                lemma_views_push(before, c);
                assert(other.parts@.take(i + 1) =~= other.parts@.take(i as int).push(
                    other.parts@[i as int],
                ));
                lemma_views_push(other.parts@.take(i as int), other.parts@[i as int]);
            }
            i = i + 1;
        }
        assert(other.parts@.take(other.parts.len() as int) =~= other.parts@);
        FsPath { absolute: self.absolute, parts }
    }

    /// This path with one more component, `name`.
    pub fn join_name(&self, name: &str) -> (r: FsPath)
        requires
            valid_component(name@),
        ensures
            wf_path(self@) ==> wf_path(r@),
            r@.absolute == self@.absolute,
            r@.parts == self@.parts.push(name@),
    {
        let mut parts = copy_strings(&self.parts);
        let ghost before = parts@;
        let c = String::from_str(name);
        parts.push(c);
        proof {
            lemma_views_push(before, c);
            assert forall|i: int| wf_path(self@) && 0 <= i < views(parts@).len() implies valid_component(
                #[trigger] views(parts@)[i],
            ) by {
                if i < views(before).len() {
                    assert(views(parts@)[i] == self@.parts[i]);
                }
            }
        }
        FsPath { absolute: self.absolute, parts }
    }

    /// The last component, unless the path is empty, is the root alone, or
    /// ends in `.` or `..`.
    pub fn file_name(&self) -> (r: Option<String>)
        ensures
            r matches Some(n) ==> spec_file_name(self@) == Some(n@),
            r is None ==> spec_file_name(self@) is None,
    {
        let n = self.parts.len();
        if n == 0 {
            return None;
        }
        let last = self.parts[n - 1].as_str();
        proof {
            reveal_strlit(".");
            reveal_strlit("..");
        }
        assert(last@ == self@.parts.last());
        assert(".."@ =~= seq!['.', '.']);
        assert("."@ =~= seq!['.']);
        if str_eq(last, ".") || str_eq(last, "..") {
            return None;
        }
        Some(self.parts[n - 1].clone())
    }

    /// The path without its last component.
    pub fn parent(&self) -> (r: Option<FsPath>)
        ensures
            r matches Some(q) ==> spec_parent(self@) == Some(q@),
            r is None ==> spec_parent(self@) is None,
    {
        let n = self.parts.len();
        if n == 0 {
            return None;
        }
        let mut parts = copy_strings(&self.parts);
        let ghost before = parts@;
        let last = parts.pop();
        proof {
            assert(before =~= parts@.push(last.unwrap()));
            lemma_views_push(parts@, last.unwrap());
        }
        assert(views(parts@) =~= self@.parts.drop_last());
        Some(FsPath { absolute: self.absolute, parts })
    }

    /// Whether `base` is a leading part of this path, component by component.
    pub fn starts_with(&self, base: &FsPath) -> (r: bool)
        ensures
            r == spec_starts_with(self@, base@),
    {
        if self.absolute != base.absolute || base.parts.len() > self.parts.len() {
            return false;
        }
        let m = base.parts.len();
        let mut i: usize = 0;
        while i < m
            invariant
                m == base.parts.len(),
                m <= self.parts.len(),
                i <= m,
                forall|k: int| 0 <= k < i ==> self@.parts[k] == base@.parts[k],
            decreases m - i,
        {
            let a = self.parts[i].as_str();
            let b = base.parts[i].as_str();
            if !str_eq(a, b) {
                assert(self@.parts.take(m as int)[i as int] != base@.parts[i as int]);
                return false;
            }
            i = i + 1;
        }
        assert(self@.parts.take(m as int) =~= base@.parts);
        true
    }

    /// This path relative to `base`, if `base` is a leading part of it.
    pub fn strip_prefix(&self, base: &FsPath) -> (r: Option<FsPath>)
        ensures
            r matches Some(q) ==> spec_strip_prefix(self@, base@) == Some(q@),
            r is None ==> spec_strip_prefix(self@, base@) is None,
    {
        if !self.starts_with(base) {
            return None;
        }
        let m = base.parts.len();
        let mut parts: Vec<String> = Vec::new();
        let mut i: usize = m;
        while i < self.parts.len()
            invariant
                m == base@.parts.len(),
                m <= i <= self.parts.len(),
                views(parts@) =~= self@.parts.subrange(m as int, i as int),
            decreases self.parts.len() - i,
        {
            let ghost before = parts@;
            let c = self.parts[i].clone();
            parts.push(c);
            proof {
                lemma_views_push(before, c);
            }
            i = i + 1;
        }
        Some(FsPath { absolute: false, parts })
    }
}


/// The index of the last `.` in a name, or none.
fn find_last_dot(name: &str) -> (r: Option<usize>)
    ensures
        r matches Some(k) ==> last_dot(name@) == k,
        r is None ==> last_dot(name@) == -1,
{
    let n = name.unicode_len();
    let mut last: Option<usize> = None;
    let mut i: usize = 0;
    assert(name@.take(0) =~= Seq::<char>::empty());
    while i < n
        invariant
            n == name@.len(),
            i <= n,
            last matches Some(k) ==> last_dot(name@.take(i as int)) == k,
            last is None ==> last_dot(name@.take(i as int)) == -1,
        decreases n - i,
    {
        assert(name@.take(i + 1).drop_last() =~= name@.take(i as int));
        if name.get_char(i) == '.' {
            last = Some(i);
        }
        i = i + 1;
    }
    assert(name@.take(n as int) =~= name@);
    last
}

/// The stem and the extension of a file name.
pub fn split_file_name(name: &str) -> (r: (&str, Option<&str>))
    ensures
        r.0@ == name_stem(name@),
        r.1 matches Some(e) ==> name_extension(name@) == Some(e@),
        r.1 is None ==> name_extension(name@) is None,
{
    let n = name.unicode_len();
    let found = find_last_dot(name);
    proof {
        lemma_last_dot(name@);
    }
    match found {
        Some(k) => {
            if k < 1 {
                (name.substring_char(0, n), None)
            } else {
                let stem = name.substring_char(0, k);
                let ext = name.substring_char(k + 1, n);
                assert(stem@ =~= name@.take(k as int));
                assert(ext@ =~= name@.skip(k + 1));
                (stem, Some(ext))
            }
        },
        None => (name.substring_char(0, n), None),
    }
}

impl FsPath {
    /// Whether every component is usable as one.
    pub open spec fn wf(&self) -> bool {
        wf_path(self@)
    }

    /// Whether every component is usable as one: not empty and free of `/`.
    pub fn well_formed(&self) -> (r: bool)
        ensures
            r == self.wf(),
    {
        let mut i: usize = 0;
        while i < self.parts.len()
            invariant
                i <= self.parts.len(),
                forall|k: int| 0 <= k < i ==> valid_component(#[trigger] self@.parts[k]),
            decreases self.parts.len() - i,
        {
            let c = self.parts[i].as_str();
            if c.unicode_len() == 0 || str_contains(c, '/') {
                assert(!valid_component(self@.parts[i as int]));
                return false;
            }
            i = i + 1;
        }
        true
    }

    /// The file name without its extension.
    pub fn file_stem(&self) -> (r: Option<String>)
        ensures
            r matches Some(s) ==> spec_file_name(self@) matches Some(n) && s@ == name_stem(n),
            r is None ==> spec_file_name(self@) is None,
    {
        match self.file_name() {
            Some(n) => {
                let (stem, _) = split_file_name(n.as_str());
                Some(String::from_str(stem))
            },
            None => None,
        }
    }

    /// The extension of the file name.
    pub fn extension(&self) -> (r: Option<String>)
        ensures
            r matches Some(e) ==> spec_file_name(self@) matches Some(n) && name_extension(n)
                == Some(e@),
            r is None ==> spec_file_name(self@) is None || name_extension(
                spec_file_name(self@).unwrap(),
            ) is None,
    {
        match self.file_name() {
            Some(n) => {
                let (_, ext) = split_file_name(n.as_str());
                match ext {
                    Some(e) => Some(String::from_str(e)),
                    None => None,
                }
            },
            None => None,
        }
    }

    /// This path with its file name replaced by `name`, or `name` added when
    /// it has none.
    pub fn with_file_name(&self, name: &str) -> (r: FsPath)
        requires
            valid_component(name@),
        ensures
            r@ == spec_with_file_name(self@, name@),
            wf_path(self@) ==> wf_path(r@),
    {
        if self.file_name().is_some() {
            let parent = self.parent().unwrap();
            parent.join_name(name)
        } else {
            self.join_name(name)
        }
    }
}

/// Whether a piece of a path text between separators is a component: `.`
/// and empty pieces are not.
pub open spec fn kept_piece(c: Seq<char>) -> bool {
    c.len() > 0 && c != seq!['.']
}

/// The last piece that is a component.
pub open spec fn last_kept(pieces: Seq<Seq<char>>) -> Option<Seq<char>>
    decreases pieces.len(),
{
    if pieces.len() == 0 {
        None
    } else if kept_piece(pieces.last()) {
        Some(pieces.last())
    } else {
        last_kept(pieces.drop_last())
    }
}

/// The last component of a path written as text, as `Path::components`
/// reads it: the last piece between `/` that is neither empty nor `.`;
/// otherwise the root `/` or a leading `.`; none for an empty text.
pub open spec fn spec_last_component(s: Seq<char>) -> Option<Seq<char>> {
    match last_kept(split(s, '/')) {
        Some(c) => Some(c),
        None => if s.len() > 0 && s[0] == '/' {
            Some(seq!['/'])
        } else if s.len() > 0 && s[0] == '.' {
            Some(seq!['.'])
        } else {
            None
        },
    }
}

/// The last component of a path written as text.
pub fn last_component(s: &str) -> (r: Option<String>)
    ensures
        r matches Some(c) ==> spec_last_component(s@) == Some(c@),
        r is None ==> spec_last_component(s@) is None,
{
    let pieces = split_str(s, '/');
    let ghost all = pieces@.map_values(|x: &str| x@);
    let mut i: usize = pieces.len();
    assert(all.take(i as int) =~= all);
    while i > 0
        invariant
            i <= pieces.len(),
            all.len() == pieces.len(),
            all == split(s@, '/'),
            all == pieces@.map_values(|x: &str| x@),
            last_kept(all) == last_kept(all.take(i as int)),
        decreases i,
    {
        let piece = pieces[i - 1];
        proof {
            reveal_strlit(".");
            assert("."@ =~= seq!['.']);
            assert(all.take(i as int).last() == piece@);
            assert(all.take(i as int).drop_last() =~= all.take(i - 1));
        }
        if piece.unicode_len() > 0 && !str_eq(piece, ".") {
            return Some(String::from_str(piece));
        }
        i = i - 1;
    }
    assert(all.take(0) =~= Seq::<Seq<char>>::empty());
    let n = s.unicode_len();
    if n > 0 && s.get_char(0) == '/' {
        proof {
            reveal_strlit("/");
            assert("/"@ =~= seq!['/']);
        }
        Some(String::from_str("/"))
    } else if n > 0 && s.get_char(0) == '.' {
        proof {
            reveal_strlit(".");
            assert("."@ =~= seq!['.']);
        }
        Some(String::from_str("."))
    } else {
        None
    }
}

/// The pieces that are components, in order.
pub open spec fn kept_pieces(pieces: Seq<Seq<char>>) -> Seq<Seq<char>>
    decreases pieces.len(),
{
    if pieces.len() == 0 {
        Seq::empty()
    } else if kept_piece(pieces.last()) {
        kept_pieces(pieces.drop_last()).push(pieces.last())
    } else {
        kept_pieces(pieces.drop_last())
    }
}

/// `p` followed by the path written as the text `t`, as `PathBuf::push`
/// reads it: a text starting at the root replaces the path; otherwise its
/// pieces between `/` that are components follow those of `p`, where a
/// leading `.` stays when `p` is empty.
pub open spec fn spec_push_text(p: PathView, t: Seq<char>) -> PathView {
    let pieces = split(t, '/');
    if t.len() > 0 && t[0] == '/' {
        PathView { absolute: true, parts: kept_pieces(pieces) }
    } else if !p.absolute && p.parts.len() == 0 && pieces[0] == seq!['.'] {
        PathView { absolute: false, parts: seq![seq!['.']] + kept_pieces(pieces.drop_first()) }
    } else {
        PathView { absolute: p.absolute, parts: p.parts + kept_pieces(pieces) }
    }
}

/// A text that is one component is pushed as that component.
pub proof fn lemma_push_component(p: PathView, t: Seq<char>)
    requires
        valid_component(t),
        t != seq!['.'],
    ensures
        spec_push_text(p, t) == (PathView { absolute: p.absolute, parts: p.parts.push(t) }),
{
    crate::text::lemma_split_plain(t, '/');
    assert(seq![t].drop_last() =~= Seq::<Seq<char>>::empty());
    assert(seq![t].last() == t);
    assert(kept_piece(t));
    assert(kept_pieces(Seq::<Seq<char>>::empty()) == Seq::<Seq<char>>::empty());
    assert(kept_pieces(seq![t]) =~= seq![t]);
    assert(t[0] != '/') by {
        assert(t.contains(t[0]));
    }
    assert(seq![t][0] == t);
    assert(p.parts + seq![t] =~= p.parts.push(t));
}

impl FsPath {
    /// This path followed by the path written as the text `t`.
    pub fn push_text(&self, t: &str) -> (r: FsPath)
        ensures
            r@ == spec_push_text(self@, t@),
    {
        let pieces = split_str(t, '/');
        let ghost all = pieces@.map_values(|x: &str| x@);
        proof {
            crate::text::lemma_split_nonempty(t@, '/');
            reveal_strlit(".");
            assert("."@ =~= seq!['.']);
        }
        let n = t.unicode_len();
        let rooted = n > 0 && t.get_char(0) == '/';
        let mut start: usize = 0;
        let mut absolute = self.absolute;
        let mut parts: Vec<String> = Vec::new();
        if rooted {
            absolute = true;
        } else if !self.absolute && self.parts.len() == 0 && str_eq(pieces[0], ".") {
            parts.push(String::from_str("."));
            start = 1;
        } else {
            parts = copy_strings(&self.parts);
        }
        let ghost base = views(parts@);
        assert(all.skip(start as int).take(0) =~= Seq::<Seq<char>>::empty());
        let mut i: usize = start;
        while i < pieces.len()
            invariant
                start <= i <= pieces.len(),
                "."@ == seq!['.'],
                all == pieces@.map_values(|x: &str| x@),
                views(parts@) == base + kept_pieces(all.skip(start as int).take(i - start)),
            decreases pieces.len() - i,
        {
            let piece = pieces[i];
            let ghost before = parts@;
            let ghost done = all.skip(start as int).take(i - start);
            let ghost next = all.skip(start as int).take(i - start + 1);
            proof {
                assert(next.drop_last() =~= done);
                assert(next.last() == all[i as int]);
                assert(all[i as int] == piece@);
            }
            if piece.unicode_len() > 0 && !str_eq(piece, ".") {
                let c = String::from_str(piece);
                parts.push(c);
                proof {
                    lemma_views_push(before, c);
                    assert(kept_piece(piece@));
                    assert(kept_pieces(next) == kept_pieces(done).push(piece@));
                    assert(views(parts@) =~= base + kept_pieces(next));
                }
            } else {
                proof {
                    assert(!kept_piece(piece@));
                    assert(kept_pieces(next) == kept_pieces(done));
                }
            }
            i = i + 1;
        }
        assert(all.skip(start as int).take(pieces.len() - start) =~= all.skip(start as int));
        assert(all.skip(0) =~= all);
        assert(all.skip(1) =~= all.drop_first());
        assert(all == split(t@, '/'));
        assert(views(parts@) == base + kept_pieces(all.skip(start as int)));
        proof {
            if rooted {
                assert(base =~= Seq::<Seq<char>>::empty());
                assert(views(parts@) =~= kept_pieces(all));
            } else if start == 1 {
                assert(base =~= seq![seq!['.']]);
            } else {
                assert(base == self@.parts);
                assert(!(!self@.absolute && self@.parts.len() == 0 && all[0] == seq!['.']));
            }
        }
        FsPath { absolute, parts }
    }
}

/// The value of an optional path.
pub open spec fn opt_view(o: Option<FsPath>) -> Option<PathView> {
    match o {
        Some(p) => Some(p@),
        None => None,
    }
}

/// The values of a list of paths.
pub open spec fn paths_view(v: Seq<FsPath>) -> Seq<PathView> {
    v.map_values(|p: FsPath| p@)
}

/// Copies an optional path.
pub fn copy_opt_path(o: &Option<FsPath>) -> (r: Option<FsPath>)
    ensures
        opt_view(r) == opt_view(*o),
{
    match o {
        Some(p) => Some(p.duplicate()),
        None => None,
    }
}

/// Copies a list of paths.
pub fn copy_paths(v: &Vec<FsPath>) -> (r: Vec<FsPath>)
    ensures
        paths_view(r@) == paths_view(v@),
{
    let mut r: Vec<FsPath> = Vec::new();
    let mut i: usize = 0;
    while i < v.len()
        invariant
            i <= v.len(),
            paths_view(r@) =~= paths_view(v@.take(i as int)),
        decreases v.len() - i,
    {
        let ghost before = r@;
        let p = v[i].duplicate();
        r.push(p);
        proof {
            assert(r@ =~= before.push(p));
            assert(paths_view(before.push(p)) =~= paths_view(before).push(p@));
            assert(v@.take(i + 1) =~= v@.take(i as int).push(v@[i as int]));
            assert(paths_view(v@.take(i as int).push(v@[i as int])) =~= paths_view(
                v@.take(i as int),
            ).push(v@[i as int]@));
        }
        i = i + 1;
    }
    assert(v@.take(v.len() as int) =~= v@);
    r
}

/// Text free of `/` stays so when joined with other such text.
pub proof fn lemma_concat_no_sep(a: Seq<char>, b: Seq<char>)
    requires
        !a.contains('/'),
        !b.contains('/'),
    ensures
        !(a + b).contains('/'),
{
    assert forall|i: int| 0 <= i < (a + b).len() implies (a + b)[i] != '/' by {
        if i < a.len() {
            assert((a + b)[i] == a[i]);
        } else {
            assert((a + b)[i] == b[i - a.len()]);
        }
    }
}

/// The stem and the extension of a name free of `/` are free of it too.
pub proof fn lemma_name_parts_no_sep(n: Seq<char>)
    requires
        !n.contains('/'),
    ensures
        !name_stem(n).contains('/'),
        name_extension(n) matches Some(e) ==> !e.contains('/'),
{
    lemma_last_dot(n);
    if last_dot(n) >= 1 {
        let k = last_dot(n);
        let st = n.take(k);
        assert forall|i: int| 0 <= i < st.len() implies #[trigger] st[i] != '/' by {
            assert(st[i] == n[i]);
        }
        let e = n.skip(k + 1);
        assert forall|i: int| 0 <= i < e.len() implies #[trigger] e[i] != '/' by {
            assert(e[i] == n[i + k + 1]);
        }
    }
}

/// Taking a path relative to a base undoes joining a relative path to
/// that base.
pub proof fn lemma_strip_prefix_join(base: PathView, rel: PathView)
    requires
        !rel.absolute,
    ensures
        spec_strip_prefix(spec_join(base, rel), base) == Some(rel),
{
    let j = spec_join(base, rel);
    assert(j.parts.take(base.parts.len() as int) =~= base.parts);
    assert(j.parts.skip(base.parts.len() as int) =~= rel.parts);
}

/// Text free of `.` put after a name does not move its last dot.
pub proof fn lemma_last_dot_plain(a: Seq<char>, b: Seq<char>)
    requires
        !b.contains('.'),
    ensures
        last_dot(a + b) == last_dot(a),
    decreases b.len(),
{
    if b.len() == 0 {
        assert(a + b =~= a);
    } else {
        let s = a + b;
        assert(s.last() == b.last());
        assert(b.last() == b[b.len() - 1]);
        assert(s.drop_last() =~= a + b.drop_last());
        assert forall|i: int| 0 <= i < b.drop_last().len() implies #[trigger] b.drop_last()[i] != '.' by {
            assert(b.drop_last()[i] == b[i]);
        }
        lemma_last_dot_plain(a, b.drop_last());
    }
}

/// The last dot of `a.e`, for `e` free of `.`, is the one after `a`.
pub proof fn lemma_last_dot_ext(a: Seq<char>, e: Seq<char>)
    requires
        !e.contains('.'),
    ensures
        last_dot(a + seq!['.'] + e) == a.len(),
{
    lemma_last_dot_plain(a + seq!['.'], e);
    let x = a + seq!['.'];
    assert(x.last() == '.');
}

} // verus!
