//! Creating a project from a template or an example of the repository,
//! with cargo-generate.
use vstd::prelude::*;
use crate::cli::new_options::{spec_git_path, spec_template, NewOptions, ProjectTemplate, UseExample};
use crate::path::FsPath;
use crate::tools::{arg_views, text_arg, ArgView, CommandArg};

verus! {

/// The repository of the templates and examples.
pub open spec fn spec_repository_url() -> Seq<char> {
    "https://github.com/Neo-Ciber94/hashira.git"@
}

/// The task of the `new` command.
#[derive(Debug)]
pub struct NewTask {
    pub options: NewOptions,
}

/// The flags that follow the source in a cargo-generate command: the
/// name, the destination, `--silent` when quiet and `--overwrite` when
/// forced, each when given.
pub open spec fn spec_tail_args(name: Option<Seq<char>>, o: NewOptions) -> Seq<ArgView> {
    let n = match name {
        Some(n) => seq![ArgView::Text("--name"@), ArgView::Text(n)],
        None => Seq::empty(),
    };
    let d = match o.path {
        Some(p) => seq![ArgView::Text("--destination"@), ArgView::Path(p@)],
        None => Seq::empty(),
    };
    let q = if o.quiet {
        seq![ArgView::Text("--silent"@)]
    } else {
        Seq::empty()
    };
    let f = if o.force {
        seq![ArgView::Text("--overwrite"@)]
    } else {
        Seq::empty()
    };
    n + d + q + f
}

/// The arguments that make a project from a template.
pub open spec fn spec_project_args(t: ProjectTemplate, o: NewOptions) -> Seq<ArgView> {
    seq![
        ArgView::Text("generate"@),
        ArgView::Text("--git"@),
        ArgView::Text(spec_repository_url()),
        ArgView::Text(spec_git_path(t)),
    ] + spec_tail_args(
        match o.name {
            Some(n) => Some(n@),
            None => None,
        },
        o,
    )
}

/// The arguments that make a project from an example: the project is
/// named after the example when no name is given.
pub open spec fn spec_example_args(example: Seq<char>, o: NewOptions) -> Seq<ArgView> {
    seq![
        ArgView::Text("generate"@),
        ArgView::Text("--git"@),
        ArgView::Text(spec_repository_url()),
        ArgView::Text("examples/"@ + example),
    ] + spec_tail_args(
        Some(
            match o.name {
                Some(n) => n@,
                None => example,
            },
        ),
        o,
    )
}

/// Adds the arguments that follow the source.
fn push_tail_args(args: &mut Vec<CommandArg>, name: Option<String>, o: &NewOptions)
    ensures
        arg_views(final(args)@) == arg_views(old(args)@) + spec_tail_args(
            match name {
                Some(n) => Some(n@),
                None => None,
            },
            *o,
        ),
{
    let ghost start = arg_views(args@);
    if let Some(n) = name {
        args.push(text_arg("--name"));
        args.push(CommandArg::Text(n));
    }
    assert(arg_views(args@) =~= start + match name {
        Some(n) => seq![ArgView::Text("--name"@), ArgView::Text(n@)],
        None => Seq::<ArgView>::empty(),
    });
    let ghost after_name = arg_views(args@);
    if let Some(p) = &o.path {
        args.push(text_arg("--destination"));
        args.push(CommandArg::Path(p.duplicate()));
    }
    assert(arg_views(args@) =~= after_name + match o.path {
        Some(p) => seq![ArgView::Text("--destination"@), ArgView::Path(p@)],
        None => Seq::<ArgView>::empty(),
    });
    let ghost after_dest = arg_views(args@);
    if o.quiet {
        args.push(text_arg("--silent"));
    }
    assert(arg_views(args@) =~= after_dest + if o.quiet {
        seq![ArgView::Text("--silent"@)]
    } else {
        Seq::<ArgView>::empty()
    });
    let ghost after_quiet = arg_views(args@);
    if o.force {
        args.push(text_arg("--overwrite"));
    }
    assert(arg_views(args@) =~= after_quiet + if o.force {
        seq![ArgView::Text("--overwrite"@)]
    } else {
        Seq::<ArgView>::empty()
    });
    assert(arg_views(args@) =~= start + spec_tail_args(
        match name {
            Some(n) => Some(n@),
            None => None,
        },
        *o,
    ));
}

/// Copies an optional text.
fn copy_opt_text(o: &Option<String>) -> (r: Option<String>)
    ensures
        match *o {
            Some(s) => r matches Some(t) && t@ == s@,
            None => r is None,
        },
{
    match o {
        Some(s) => Some(s.clone()),
        None => None,
    }
}

impl NewTask {
    /// The task for the given options.
    pub fn new(options: NewOptions) -> (r: NewTask)
        ensures
            r.options == options,
    {
        NewTask { options }
    }

    /// Whether the project is made from an example.
    pub fn is_example(&self) -> (r: bool)
        ensures
            r == self.options.example is Some,
    {
        self.options.example.is_some()
    }

    /// The template to make the project from: the one the flags choose,
    /// else the one picked from `ProjectTemplate::iter`, by its index; no
    /// pick is refused.
    pub fn get_template(&self, picked: Option<usize>) -> (r: Result<ProjectTemplate, String>)
        requires
            picked matches Some(i) ==> i < crate::cli::new_options::spec_all_templates().len(),
        ensures
            match spec_template(self.options) {
                Some(t) => r == Ok::<ProjectTemplate, String>(t),
                None => match picked {
                    Some(i) => r == Ok::<ProjectTemplate, String>(
                        crate::cli::new_options::spec_all_templates()[i as int],
                    ),
                    None => r matches Err(m) && m@ == "You must selected a template"@,
                },
            },
    {
        match self.options.template() {
            Some(t) => Ok(t),
            None => {
                let items = ProjectTemplate::iter();
                match picked {
                    Some(i) => Ok(items[i]),
                    None => Err(String::from_str("You must selected a template")),
                }
            },
        }
    }

    /// The arguments of cargo-generate that make the project from a template.
    pub fn project_args(&self, template: ProjectTemplate) -> (r: Vec<CommandArg>)
        ensures
            arg_views(r@) == spec_project_args(template, self.options),
    {
        let mut args = vec![
            text_arg("generate"),
            text_arg("--git"),
            text_arg("https://github.com/Neo-Ciber94/hashira.git"),
            text_arg(template.git_path()),
        ];
        proof {
            reveal_strlit("https://github.com/Neo-Ciber94/hashira.git");
        }
        assert(arg_views(args@) =~= seq![
            ArgView::Text("generate"@),
            ArgView::Text("--git"@),
            ArgView::Text(spec_repository_url()),
            ArgView::Text(spec_git_path(template)),
        ]);
        push_tail_args(&mut args, copy_opt_text(&self.options.name), &self.options);
        args
    }

    /// The example to make the project from: the one named, else the one
    /// picked from the list of examples, by its index; refused when no
    /// example is asked for or none is picked.
    pub fn chosen_example(&self, examples: &Vec<String>, picked: Option<usize>) -> (r: Result<
        String,
        String,
    >)
        requires
            picked matches Some(i) ==> i < examples.len(),
        ensures
            match self.options.example {
                None => r matches Err(m) && m@ == "no example provided"@,
                Some(UseExample::Template(s)) => r matches Ok(t) && t@ == s@,
                Some(UseExample::Select) => match picked {
                    Some(i) => r matches Ok(t) && t@ == examples@[i as int]@,
                    None => r matches Err(m) && m@ == "You must selected a example"@,
                },
            },
    {
        match &self.options.example {
            None => Err(String::from_str("no example provided")),
            Some(UseExample::Template(s)) => Ok(s.clone()),
            Some(UseExample::Select) => match picked {
                Some(i) => Ok(examples[i].clone()),
                None => Err(String::from_str("You must selected a example")),
            },
        }
    }

    /// The arguments of cargo-generate that make the project from an example.
    pub fn example_args(&self, example: &str) -> (r: Vec<CommandArg>)
        ensures
            arg_views(r@) == spec_example_args(example@, self.options),
    {
        let mut source = String::from_str("examples/");
        source.append(example);
        let mut args = vec![
            text_arg("generate"),
            text_arg("--git"),
            text_arg("https://github.com/Neo-Ciber94/hashira.git"),
            CommandArg::Text(source),
        ];
        proof {
            reveal_strlit("https://github.com/Neo-Ciber94/hashira.git");
        }
        assert(arg_views(args@) =~= seq![
            ArgView::Text("generate"@),
            ArgView::Text("--git"@),
            ArgView::Text(spec_repository_url()),
            ArgView::Text("examples/"@ + example@),
        ]);
        let name = match &self.options.name {
            Some(n) => n.clone(),
            None => String::from_str(example),
        };
        push_tail_args(&mut args, Some(name), &self.options);
        args
    }
}

} // verus!
