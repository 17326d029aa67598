//! The options of the `new` command and the project templates it offers.
use vstd::prelude::*;
use crate::path::FsPath;
use crate::text::trim;

verus! {

/// The options of the `new` command.
#[derive(Debug)]
pub struct NewOptions {
    /// The name of the project.
    pub name: Option<String>,
    /// Where to create the project.
    pub path: Option<FsPath>,
    /// Use the actix-web template.
    pub actix_web: bool,
    /// Use the axum template.
    pub axum: bool,
    /// Use the warp template.
    pub warp: bool,
    /// Use the tide template.
    pub tide: bool,
    /// Use the rocket template.
    pub rocket: bool,
    /// Use the deno template.
    pub deno: bool,
    /// Use one of the examples.
    pub example: Option<UseExample>,
    /// Allow the template to overwrite existing files in the destination.
    pub force: bool,
    /// Emit nothing on the console.
    pub quiet: bool,
    /// Use local files for the template.
    pub dev: bool,
}

/// A template a project is made from.
#[derive(Debug, Clone, Copy, PartialEq, Eq, Structural)]
pub enum ProjectTemplate {
    ActixWeb,
    Axum,
    Rocket,
    Warp,
    Tide,
    Deno,
}

/// Which example a project is made from.
#[derive(Debug)]
pub enum UseExample {
    /// The example of the given name.
    Template(String),
    /// The example is chosen from a list.
    Select,
}

/// The template the flags of the options choose, the first set in the
/// order actix-web, axum, rocket, warp, tide, deno.
pub open spec fn spec_template(o: NewOptions) -> Option<ProjectTemplate> {
    if o.actix_web {
        Some(ProjectTemplate::ActixWeb)
    } else if o.axum {
        Some(ProjectTemplate::Axum)
    } else if o.rocket {
        Some(ProjectTemplate::Rocket)
    } else if o.warp {
        Some(ProjectTemplate::Warp)
    } else if o.tide {
        Some(ProjectTemplate::Tide)
    } else if o.deno {
        Some(ProjectTemplate::Deno)
    } else {
        None
    }
}

impl NewOptions {
    /// The template the flags choose, if any.
    pub fn template(&self) -> (r: Option<ProjectTemplate>)
        ensures
            r == spec_template(*self),
    {
        if self.actix_web {
            return Some(ProjectTemplate::ActixWeb);
        }
        if self.axum {
            return Some(ProjectTemplate::Axum);
        }
        if self.rocket {
            return Some(ProjectTemplate::Rocket);
        }
        if self.warp {
            return Some(ProjectTemplate::Warp);
        }
        if self.tide {
            return Some(ProjectTemplate::Tide);
        }
        if self.deno {
            return Some(ProjectTemplate::Deno);
        }
        None
    }
}

/// All the templates, in the order they are offered.
pub open spec fn spec_all_templates() -> Seq<ProjectTemplate> {
    seq![
        ProjectTemplate::ActixWeb,
        ProjectTemplate::Axum,
        ProjectTemplate::Rocket,
        ProjectTemplate::Warp,
        ProjectTemplate::Tide,
        ProjectTemplate::Deno,
    ]
}

/// The directory of a template in the repository.
pub open spec fn spec_git_path(t: ProjectTemplate) -> Seq<char> {
    match t {
        ProjectTemplate::ActixWeb => "templates/with-actix-web"@,
        ProjectTemplate::Axum => "templates/with-axum"@,
        ProjectTemplate::Rocket => "templates/with-rocket"@,
        ProjectTemplate::Warp => "templates/with-warp"@,
        ProjectTemplate::Tide => "templates/with-tide"@,
        ProjectTemplate::Deno => "templates/with-deno"@,
    }
}

/// The name of a template as it is shown.
pub open spec fn spec_template_name(t: ProjectTemplate) -> Seq<char> {
    match t {
        ProjectTemplate::ActixWeb => "Actix Web"@,
        ProjectTemplate::Axum => "Axum"@,
        ProjectTemplate::Rocket => "Rocket"@,
        ProjectTemplate::Warp => "Warp"@,
        ProjectTemplate::Tide => "Tide"@,
        ProjectTemplate::Deno => "Deno"@,
    }
}

impl ProjectTemplate {
    /// All the templates, in the order they are offered.
    pub fn iter() -> (r: Vec<ProjectTemplate>)
        ensures
            r@ == spec_all_templates(),
    {
        let r = vec![
            ProjectTemplate::ActixWeb,
            ProjectTemplate::Axum,
            ProjectTemplate::Rocket,
            ProjectTemplate::Warp,
            ProjectTemplate::Tide,
            ProjectTemplate::Deno,
        ];
        assert(r@ =~= spec_all_templates());
        r
    }

    /// The directory of the template in the repository.
    pub fn git_path(&self) -> (r: &'static str)
        ensures
            r@ == spec_git_path(*self),
    {
        match self {
            ProjectTemplate::ActixWeb => "templates/with-actix-web",
            ProjectTemplate::Axum => "templates/with-axum",
            ProjectTemplate::Rocket => "templates/with-rocket",
            ProjectTemplate::Warp => "templates/with-warp",
            ProjectTemplate::Tide => "templates/with-tide",
            ProjectTemplate::Deno => "templates/with-deno",
        }
    }

    /// The name of the template as it is shown.
    pub fn to_string(&self) -> (r: String)
        ensures
            r@ == spec_template_name(*self),
    {
        let name = match self {
            ProjectTemplate::ActixWeb => "Actix Web",
            ProjectTemplate::Axum => "Axum",
            ProjectTemplate::Rocket => "Rocket",
            ProjectTemplate::Warp => "Warp",
            ProjectTemplate::Tide => "Tide",
            ProjectTemplate::Deno => "Deno",
        };
        String::from_str(name)
    }
}

/// Every template is offered, once.
pub proof fn lemma_templates_listed_once(t: ProjectTemplate)
    ensures
        spec_all_templates().contains(t),
        forall|i: int, j: int|
            0 <= i < j < spec_all_templates().len() ==> spec_all_templates()[i]
                != spec_all_templates()[j],
{
    let all = spec_all_templates();
    match t {
        ProjectTemplate::ActixWeb => assert(all[0] == t),
        ProjectTemplate::Axum => assert(all[1] == t),
        ProjectTemplate::Rocket => assert(all[2] == t),
        ProjectTemplate::Warp => assert(all[3] == t),
        ProjectTemplate::Tide => assert(all[4] == t),
        ProjectTemplate::Deno => assert(all[5] == t),
    }
}

/// The name of a template as it is written in a directory name: ASCII
/// letters in lower case and spaces as `-`.
pub open spec fn dir_form(name: Seq<char>) -> Seq<char> {
    name.map_values(|c: char| if c == ' ' { '-' } else { crate::text::ascii_lower(c) })
}

/// Each template lives in the repository directory `templates/with-`
/// followed by its own shown name in directory form, and no two templates
/// share a directory.
pub proof fn lemma_template_directories(t: ProjectTemplate, u: ProjectTemplate)
    ensures
        spec_git_path(t) == "templates/with-"@ + dir_form(spec_template_name(t)),
        t != u ==> spec_git_path(t) != spec_git_path(u),
{
    reveal_strlit("templates/with-");
    reveal_strlit("templates/with-actix-web");
    reveal_strlit("templates/with-axum");
    reveal_strlit("templates/with-rocket");
    reveal_strlit("templates/with-warp");
    reveal_strlit("templates/with-tide");
    reveal_strlit("templates/with-deno");
    reveal_strlit("Actix Web");
    reveal_strlit("Axum");
    reveal_strlit("Rocket");
    reveal_strlit("Warp");
    reveal_strlit("Tide");
    reveal_strlit("Deno");
    let p = "templates/with-"@;
    assert(spec_git_path(t) =~= p + dir_form(spec_template_name(t)));
    let a = spec_git_path(t);
    let b = spec_git_path(u);
    if t != u {
        assert(a[15] != b[15] || a[16] != b[16]);
    }
}

impl UseExample {
    /// The example a command line value asks for: a blank value asks for a
    /// choice from the list.
    pub fn from_str(s: &str) -> (r: Result<UseExample, String>)
        ensures
            trim(s@).len() == 0 ==> r matches Ok(UseExample::Select),
            trim(s@).len() > 0 ==> (r matches Ok(UseExample::Template(t)) && t@ == s@),
    {
        let t = crate::text::trim_str(s);
        if t.unicode_len() == 0 {
            Ok(UseExample::Select)
        } else {
            Ok(UseExample::Template(String::from_str(s)))
        }
    }
}

} // verus!
