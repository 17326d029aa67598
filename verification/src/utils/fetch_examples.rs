//! The examples of the repository: which entries of its `examples`
//! directory are examples, and what each is described as.
use vstd::prelude::*;
use crate::text::str_eq;

verus! {

/// The address of the listing of the repository's examples.
pub open spec fn spec_examples_url() -> Seq<char> {
    "https://api.github.com/repos/Neo-Ciber94/hashira/contents/examples"@
}

/// The address of the listing of the repository's examples.
pub fn examples_url() -> (r: &'static str)
    ensures
        r@ == spec_examples_url(),
{
    "https://api.github.com/repos/Neo-Ciber94/hashira/contents/examples"
}

/// The address of the listing of one example's folder:
/// `{examples_url}/{name}`.
pub fn example_folder_url(name: &str) -> (r: String)
    ensures
        r@ == spec_examples_url() + "/"@ + name@,
{
    let mut s = String::from_str(examples_url());
    s.append("/");
    s.append(name);
    s
}

/// An entry of a directory listing of the repository.
#[derive(Debug)]
pub struct GitHubContent {
    pub name: String,
    pub path: String,
    pub download_url: Option<String>,
    /// `dir` for a directory, `file` for a file.
    pub content_type: String,
}

/// The value of an entry of a listing.
pub struct ContentView {
    pub name: Seq<char>,
    pub path: Seq<char>,
    pub download_url: Option<Seq<char>>,
    pub content_type: Seq<char>,
}

impl View for GitHubContent {
    type V = ContentView;

    open spec fn view(&self) -> ContentView {
        ContentView {
            name: self.name@,
            path: self.path@,
            download_url: match self.download_url {
                Some(u) => Some(u@),
                None => None,
            },
            content_type: self.content_type@,
        }
    }
}

/// The values of a listing.
pub open spec fn contents_view(v: Seq<GitHubContent>) -> Seq<ContentView> {
    v.map_values(|c: GitHubContent| c@)
}

/// Whether an entry is a directory.
pub open spec fn is_dir(c: ContentView) -> bool {
    c.content_type == "dir"@
}

/// An example of the repository.
#[derive(Debug)]
pub struct ExampleTemplate {
    pub name: String,
    pub path: String,
    pub description: Option<String>,
}

/// Text padded with spaces on the right to at least `width` characters.
pub open spec fn pad_right(s: Seq<char>, width: nat) -> Seq<char> {
    if s.len() >= width {
        s
    } else {
        s + Seq::new((width - s.len()) as nat, |i: int| ' ')
    }
}

/// The line an example is listed with: its name, then its description in
/// a column 30 characters wide, when it has one.
pub open spec fn spec_example_line(name: Seq<char>, description: Option<Seq<char>>) -> Seq<char> {
    match description {
        Some(d) => pad_right(name, 30) + d,
        None => name,
    }
}

impl ExampleTemplate {
    /// The line the example is listed with.
    pub fn to_string(&self) -> (r: String)
        ensures
            r@ == spec_example_line(
                self.name@,
                match self.description {
                    Some(d) => Some(d@),
                    None => None,
                },
            ),
    {
        match &self.description {
            None => self.name.clone(),
            Some(d) => {
                let mut s = self.name.clone();
                let n = self.name.unicode_len();
                let mut k: usize = n;
                proof {
                    reveal_strlit(" ");
                    assert(" "@ =~= seq![' ']);
                }
                while k < 30
                    invariant
                        n == self.name@.len(),
                        n <= k <= 30 || (n > 30 && k == n),
                        k >= n,
                        s@ == self.name@ + Seq::new((k - n) as nat, |i: int| ' '),
                    decreases 30 - k,
                {
                    proof {
                        reveal_strlit(" ");
                        assert(" "@ =~= seq![' ']);
                    }
                    s.append(" ");
                    assert(s@ =~= self.name@ + Seq::new((k + 1 - n) as nat, |i: int| ' '));
                    k = k + 1;
                }
                assert(s@ =~= pad_right(self.name@, 30));
                s.append(d.as_str());
                s
            },
        }
    }
}

/// The directories of a listing, in order: each is an example.
pub fn example_dirs(contents: Vec<GitHubContent>) -> (r: Vec<GitHubContent>)
    ensures
        contents_view(r@) == contents_view(contents@).filter(|c: ContentView| is_dir(c)),
{
    let ghost all = contents_view(contents@);
    let mut r: Vec<GitHubContent> = Vec::new();
    let mut rest = contents;
    proof {
        assert(all.take(0) =~= Seq::<ContentView>::empty());
        assert(contents_view(r@) =~= Seq::<ContentView>::empty());
        reveal(Seq::filter);
        assert(Seq::<ContentView>::empty().filter(|c: ContentView| is_dir(c)) =~= Seq::<
            ContentView,
        >::empty());
        assert(contents_view(rest@) =~= all.skip(0));
    }
    let n = rest.len();
    let mut i: usize = 0;
    while i < n
        invariant
            n == all.len(),
            i <= n,
            rest@.len() == n - i,
            contents_view(rest@) == all.skip(i as int),
            contents_view(r@) == all.take(i as int).filter(|c: ContentView| is_dir(c)),
        decreases n - i,
    {
        let ghost before_rest = rest@;
        let c = rest.remove(0);
        proof {
            assert(contents_view(before_rest)[0] == c@);
            assert(c@ == all[i as int]);
            assert(rest@ =~= before_rest.subrange(1, before_rest.len() as int));
            assert(contents_view(rest@) =~= contents_view(before_rest).subrange(
                1,
                before_rest.len() as int,
            ));
            assert(all.skip(i as int).subrange(1, before_rest.len() as int) =~= all.skip(i + 1));
            assert(contents_view(rest@) =~= all.skip(i + 1));
            assert(all.take(i + 1) =~= all.take(i as int).push(all[i as int]));
            all.take(i as int).lemma_filter_push(all[i as int], |c: ContentView| is_dir(c));
            reveal_strlit("dir");
        }
        if str_eq(c.content_type.as_str(), "dir") {
            let ghost before = r@;
            r.push(c);
            assert(contents_view(r@) =~= contents_view(before).push(c@));
        }
        i = i + 1;
    }
    assert(all.take(n as int) =~= all);
    r
}

/// The address of the manifest of an example, from the listing of its
/// directory: the download address of the first entry named `Cargo.toml`.
pub open spec fn spec_manifest_url(entries: Seq<ContentView>) -> Option<Seq<char>>
    decreases entries.len(),
{
    if entries.len() == 0 {
        None
    } else if entries[0].name == "Cargo.toml"@ {
        entries[0].download_url
    } else {
        spec_manifest_url(entries.drop_first())
    }
}

/// The address of the manifest of an example, from the listing of its directory.
pub fn manifest_url(entries: &Vec<GitHubContent>) -> (r: Option<String>)
    ensures
        match spec_manifest_url(contents_view(entries@)) {
            Some(u) => r matches Some(s) && s@ == u,
            None => r is None,
        },
{
    let ghost all = contents_view(entries@);
    let mut i: usize = 0;
    assert(all.skip(0) =~= all);
    while i < entries.len()
        invariant
            i <= entries.len(),
            all == contents_view(entries@),
            spec_manifest_url(all) == spec_manifest_url(all.skip(i as int)),
        decreases entries.len() - i,
    {
        assert(all.skip(i as int)[0] == entries@[i as int]@);
        assert(all.skip(i as int).drop_first() =~= all.skip(i + 1));
        let e = &entries[i];
        if str_eq(e.name.as_str(), "Cargo.toml") {
            return match &e.download_url {
                Some(u) => Some(u.clone()),
                None => None,
            };
        }
        i = i + 1;
    }
    assert(all.skip(i as int) =~= Seq::<ContentView>::empty());
    None
}

/// The example an entry of the listing stands for, with its description.
pub fn example_from(content: GitHubContent, description: Option<String>) -> (r: ExampleTemplate)
    ensures
        r.name@ == content.name@,
        r.path@ == content.path@,
        r.description == description,
{
    ExampleTemplate { name: content.name, path: content.path, description }
}

/// What `cargo_toml::Manifest::from_slice` reads from the bytes of a
/// manifest, reduced to the description of its package: `None` when the
/// bytes are not a manifest it accepts; `Some(None)` when the manifest has
/// no package section or takes its description from a workspace, where the
/// crate's `package()` and `description()` accessors panic; otherwise the
/// description, if the package has one.
pub uninterp spec fn manifest_description(bytes: Seq<u8>) -> Option<Option<Option<Seq<char>>>>;

/// The texts of a read description.
pub open spec fn read_description_view(r: Option<Option<Option<String>>>) -> Option<
    Option<Option<Seq<char>>>,
> {
    match r {
        None => None,
        Some(None) => Some(None),
        Some(Some(None)) => Some(Some(None)),
        Some(Some(Some(d))) => Some(Some(Some(d@))),
    }
}

/// Reads a manifest with `cargo_toml::Manifest::from_slice` and takes the
/// description of its package. The result is what the crate's parser gives
/// for the bytes, as named by `manifest_description`: `None` for bytes it
/// refuses, `Some(None)` where a package section is missing or the
/// description is inherited from a workspace (the cases in which the
/// crate's `package()` and `description()` accessors panic), else the
/// description, if any.
#[verifier::external_body]
fn read_manifest_description(bytes: &[u8]) -> (r: Option<Option<Option<String>>>)
    ensures
        read_description_view(r) == manifest_description(bytes@),
{
    match cargo_toml::Manifest::from_slice(bytes) {
        Err(_) => None,
        Ok(manifest) => Some(
            manifest.package.map(|p| p.description).and_then(|d| match d {
                None => Some(None),
                Some(cargo_toml::Inheritable::Set(text)) => Some(Some(text)),
                Some(cargo_toml::Inheritable::Inherited { .. }) => None,
            }),
        ),
    }
}

/// Whether an example is listed, and with which description, from what
/// reading its manifest gave: bytes that are no manifest leave it without
/// a description; a manifest without a package, or whose description is
/// inherited, leaves it out (`None`); otherwise it has the package's
/// description, if any.
pub open spec fn spec_listed_description(read: Option<Option<Option<Seq<char>>>>) -> Option<
    Option<Seq<char>>,
> {
    match read {
        None => Some(None),
        Some(None) => None,
        Some(Some(d)) => Some(d),
    }
}

/// The texts of a listed description.
pub open spec fn listed_view(r: Option<Option<String>>) -> Option<Option<Seq<char>>> {
    match r {
        None => None,
        Some(None) => Some(None),
        Some(Some(d)) => Some(Some(d@)),
    }
}

/// Whether an example is listed, and with which description, from what
/// reading its manifest gave; see `spec_listed_description`.
pub fn description_from(read: Option<Option<Option<String>>>) -> (r: Option<Option<String>>)
    ensures
        listed_view(r) == spec_listed_description(read_description_view(read)),
{
    match read {
        None => Some(None),
        Some(None) => None,
        Some(Some(d)) => Some(d),
    }
}

/// Whether the example of a manifest is listed, and with which description.
pub fn manifest_description_of(bytes: &[u8]) -> (r: Option<Option<String>>)
    ensures
        listed_view(r) == spec_listed_description(manifest_description(bytes@)),
{
    description_from(read_manifest_description(bytes))
}

/// The example an entry of the listing stands for, described by its
/// manifest when the manifest could be downloaded and read; `None` when its
/// manifest has no package or inherits its description, which leaves the
/// example out of the listing.
pub fn example_with_manifest(content: GitHubContent, manifest: Option<Vec<u8>>) -> (r: Option<
    ExampleTemplate,
>)
    ensures
        match manifest {
            None => r matches Some(e) && e.name@ == content.name@ && e.path@ == content.path@
                && e.description is None,
            Some(bytes) => match spec_listed_description(manifest_description(bytes@)) {
                None => r is None,
                Some(d) => r matches Some(e) && e.name@ == content.name@ && e.path@ == content.path@
                    && match d {
                    None => e.description is None,
                    Some(t) => e.description matches Some(s) && s@ == t,
                },
            },
        },
{
    match manifest {
        None => Some(example_from(content, None)),
        Some(bytes) => match manifest_description_of(bytes.as_slice()) {
            None => None,
            Some(description) => Some(example_from(content, description)),
        },
    }
}

} // verus!
