//! The arguments of the `page_component` and `action` attributes, read
//! from their tokens, and the names the `action` attribute derives.
use vstd::prelude::*;
use crate::text::str_eq;

verus! {

/// A token of the arguments of an attribute.
#[derive(Debug)]
pub enum AttrToken {
    /// An identifier.
    Ident(String),
    /// A string literal, by its value.
    Str(String),
    /// A punctuation character.
    Punct(char),
    /// Any other token.
    Other,
}

/// The value of a token.
pub enum TokenView {
    Ident(Seq<char>),
    Str(Seq<char>),
    Punct(char),
    Other,
}

impl View for AttrToken {
    type V = TokenView;

    open spec fn view(&self) -> TokenView {
        match self {
            AttrToken::Ident(s) => TokenView::Ident(s@),
            AttrToken::Str(s) => TokenView::Str(s@),
            AttrToken::Punct(c) => TokenView::Punct(*c),
            AttrToken::Other => TokenView::Other,
        }
    }
}

/// The values of a list of tokens.
pub open spec fn tokens_view(v: Seq<AttrToken>) -> Seq<TokenView> {
    v.map_values(|t: AttrToken| t@)
}

/// Why the arguments of an attribute were refused.
#[derive(Debug, Clone, Copy, PartialEq, Eq, Structural)]
pub enum AttrError {
    /// A page needs a route: a string literal or `None`.
    ExpectedRoute,
    /// After the route comes a comma and the render function, or nothing.
    ExpectedRenderArgument,
    /// The argument after the route is not named `render`.
    InvalidSignature,
    /// An identifier was expected.
    ExpectedIdent,
    /// `=` was expected.
    ExpectedEquals,
    /// A string literal was expected.
    ExpectedString,
    /// Tokens follow the end of the arguments.
    UnexpectedToken,
    /// A server action needs a route.
    ActionRoute,
    /// A server action must be async.
    NotAsync,
}

impl AttrError {
    /// The description of the error.
    pub open spec fn spec_message(self) -> Seq<char> {
        match self {
            AttrError::ExpectedRoute => "`PageComponent` require a route, provide a string literal or `None`"@,
            AttrError::ExpectedRenderArgument => "expected #[page_component(\"/route\", render = \"path::to::render\")]"@,
            AttrError::InvalidSignature => "invalid signature, expected: #[page_component(render = \"path::to::render\")]"@,
            AttrError::ExpectedIdent => "expected identifier"@,
            AttrError::ExpectedEquals => "expected `=`"@,
            AttrError::ExpectedString => "expected string literal"@,
            AttrError::UnexpectedToken => "unexpected token"@,
            AttrError::ActionRoute => "server actions should declare a route"@,
            AttrError::NotAsync => "server actions should be async"@,
        }
    }

    /// A description of the error.
    pub fn message(&self) -> (r: &'static str)
        ensures
            r@ == self.spec_message(),
    {
        match self {
            AttrError::ExpectedRoute => "`PageComponent` require a route, provide a string literal or `None`",
            AttrError::ExpectedRenderArgument => "expected #[page_component(\"/route\", render = \"path::to::render\")]",
            AttrError::InvalidSignature => "invalid signature, expected: #[page_component(render = \"path::to::render\")]",
            AttrError::ExpectedIdent => "expected identifier",
            AttrError::ExpectedEquals => "expected `=`",
            AttrError::ExpectedString => "expected string literal",
            AttrError::UnexpectedToken => "unexpected token",
            AttrError::ActionRoute => "server actions should declare a route",
            AttrError::NotAsync => "server actions should be async",
        }
    }
}

/// The arguments of `#[page_component(..)]`: the route of the page, or
/// none, and the function that renders it, if given.
#[derive(Debug)]
pub struct PageComponentAttr {
    pub route: Option<String>,
    pub render: Option<String>,
}

/// The route of a page: a string literal, or `None` for a page without one.
pub open spec fn spec_route_token(t: TokenView) -> Result<Option<Seq<char>>, AttrError> {
    match t {
        TokenView::Ident(i) => if i == "None"@ {
            Ok(None)
        } else {
            Err(AttrError::ExpectedRoute)
        },
        TokenView::Str(s) => Ok(Some(s)),
        _ => Err(AttrError::ExpectedRoute),
    }
}

/// What the arguments of `#[page_component(..)]` read as:
/// `"/route"` or `None`, optionally followed by `, render = "function"`.
pub open spec fn spec_parse_page_attr(t: Seq<TokenView>) -> Result<
    (Option<Seq<char>>, Option<Seq<char>>),
    AttrError,
> {
    if t.len() == 0 {
        Err(AttrError::ExpectedRoute)
    } else {
        match spec_route_token(t[0]) {
            Err(e) => Err(e),
            Ok(route) => if t.len() == 1 {
                Ok((route, None))
            } else if t[1] != TokenView::Punct(',') {
                Err(AttrError::ExpectedRenderArgument)
            } else if t.len() == 2 || !(t[2] is Ident) {
                Err(AttrError::ExpectedIdent)
            } else if t[2]->Ident_0 != "render"@ {
                Err(AttrError::InvalidSignature)
            } else if t.len() == 3 || t[3] != TokenView::Punct('=') {
                Err(AttrError::ExpectedEquals)
            } else if t.len() == 4 || !(t[4] is Str) {
                Err(AttrError::ExpectedString)
            } else if t.len() > 5 {
                Err(AttrError::UnexpectedToken)
            } else {
                Ok((route, Some(t[4]->Str_0)))
            },
        }
    }
}

/// The value of the arguments of a page.
pub open spec fn page_attr_view(a: PageComponentAttr) -> (Option<Seq<char>>, Option<Seq<char>>) {
    (
        match a.route {
            Some(r) => Some(r@),
            None => None,
        },
        match a.render {
            Some(r) => Some(r@),
            None => None,
        },
    )
}

impl PageComponentAttr {
    /// Reads the arguments of `#[page_component(..)]` from their tokens.
    pub fn parse(tokens: &Vec<AttrToken>) -> (r: Result<PageComponentAttr, AttrError>)
        ensures
            match spec_parse_page_attr(tokens_view(tokens@)) {
                Ok(v) => r matches Ok(a) && page_attr_view(a) == v,
                Err(e) => r matches Err(x) && x == e,
            },
    {
        let ghost t = tokens_view(tokens@);
        let n = tokens.len();
        if n == 0 {
            return Err(AttrError::ExpectedRoute);
        }
        assert(t[0] == tokens@[0]@);
        let route = match &tokens[0] {
            AttrToken::Ident(i) => {
                if str_eq(i.as_str(), "None") {
                    None
                } else {
                    return Err(AttrError::ExpectedRoute);
                }
            },
            AttrToken::Str(s) => Some(s.clone()),
            _ => {
                return Err(AttrError::ExpectedRoute);
            },
        };
        if n == 1 {
            return Ok(PageComponentAttr { route, render: None });
        }
        assert(t[1] == tokens@[1]@);
        match &tokens[1] {
            AttrToken::Punct(c) => {
                if *c != ',' {
                    return Err(AttrError::ExpectedRenderArgument);
                }
            },
            _ => {
                return Err(AttrError::ExpectedRenderArgument);
            },
        }
        if n == 2 {
            return Err(AttrError::ExpectedIdent);
        }
        assert(t[2] == tokens@[2]@);
        match &tokens[2] {
            AttrToken::Ident(i) => {
                if !str_eq(i.as_str(), "render") {
                    return Err(AttrError::InvalidSignature);
                }
            },
            _ => {
                return Err(AttrError::ExpectedIdent);
            },
        }
        if n == 3 {
            return Err(AttrError::ExpectedEquals);
        }
        assert(t[3] == tokens@[3]@);
        match &tokens[3] {
            AttrToken::Punct(c) => {
                if *c != '=' {
                    return Err(AttrError::ExpectedEquals);
                }
            },
            _ => {
                return Err(AttrError::ExpectedEquals);
            },
        }
        if n == 4 {
            return Err(AttrError::ExpectedString);
        }
        assert(t[4] == tokens@[4]@);
        let render = match &tokens[4] {
            AttrToken::Str(s) => s.clone(),
            _ => {
                return Err(AttrError::ExpectedString);
            },
        };
        if n > 5 {
            return Err(AttrError::UnexpectedToken);
        }
        Ok(PageComponentAttr { route, render: Some(render) })
    }
}

/// The argument of `#[action(..)]`: the route of the server action.
#[derive(Debug)]
pub struct ActionAttr {
    pub route: String,
}

/// What the arguments of `#[action(..)]` read as: a string literal alone.
pub open spec fn spec_parse_action_attr(t: Seq<TokenView>) -> Result<Seq<char>, AttrError> {
    if t.len() == 0 || !(t[0] is Str) {
        Err(AttrError::ActionRoute)
    } else if t.len() > 1 {
        Err(AttrError::UnexpectedToken)
    } else {
        Ok(t[0]->Str_0)
    }
}

impl ActionAttr {
    /// Reads the arguments of `#[action(..)]` from their tokens.
    pub fn parse(tokens: &Vec<AttrToken>) -> (r: Result<ActionAttr, AttrError>)
        ensures
            match spec_parse_action_attr(tokens_view(tokens@)) {
                Ok(route) => r matches Ok(a) && a.route@ == route,
                Err(e) => r matches Err(x) && x == e,
            },
    {
        let ghost t = tokens_view(tokens@);
        if tokens.len() == 0 {
            return Err(AttrError::ActionRoute);
        }
        assert(t[0] == tokens@[0]@);
        let route = match &tokens[0] {
            AttrToken::Str(s) => s.clone(),
            _ => {
                return Err(AttrError::ActionRoute);
            },
        };
        if tokens.len() > 1 {
            return Err(AttrError::UnexpectedToken);
        }
        Ok(ActionAttr { route })
    }
}

/// How a page renders: through the function named in the attribute, or
/// through the default rendering of the page within its base layout.
#[derive(Debug)]
pub enum PageRender {
    /// The render function given as `render = "path::to::function"`.
    Custom(String),
    /// The default rendering.
    Default,
}

/// What a page component is made of: its name, the tail of its id (the id
/// is the module's path followed by this), the route it answers, none for
/// a page without one, and how it renders.
#[derive(Debug)]
pub struct PagePlan {
    pub component: String,
    pub id_tail: String,
    pub route: Option<String>,
    pub render: PageRender,
}

impl PageComponentAttr {
    /// What the page component of this attribute on the function `name` is
    /// made of.
    pub fn plan(&self, name: &str) -> (r: PagePlan)
        ensures
            r.component@ == name@,
            r.id_tail@ == "::"@ + name@,
            match self.route {
                Some(a) => r.route matches Some(b) && b@ == a@,
                None => r.route is None,
            },
            match self.render {
                Some(f) => r.render matches PageRender::Custom(g) && g@ == f@,
                None => r.render is Default,
            },
    {
        let mut id_tail = String::from_str("::");
        id_tail.append(name);
        let route = match &self.route {
            Some(a) => Some(a.clone()),
            None => None,
        };
        let render = match &self.render {
            Some(f) => PageRender::Custom(f.clone()),
            None => PageRender::Default,
        };
        PagePlan { component: String::from_str(name), id_tail, route, render }
    }
}

/// The function a server action is declared on.
#[derive(Debug)]
pub struct ActionFn {
    /// The name of the function.
    pub name: String,
    /// Whether the function is async.
    pub is_async: bool,
    /// The return type written, if any.
    pub output: Option<String>,
}

/// What a server action is made of: a marker type with the function's
/// name, the function itself renamed with a leading `_`, the type of its
/// response (`()` when it returns nothing) and its route.
#[derive(Debug)]
pub struct ActionPlan {
    pub marker: String,
    pub renamed: String,
    pub response: String,
    pub route: String,
}

impl ActionAttr {
    /// What the server action of this attribute on a function is made of;
    /// refused for a function that is not async.
    pub fn plan(&self, f: &ActionFn) -> (r: Result<ActionPlan, AttrError>)
        ensures
            !f.is_async ==> (r matches Err(e) && e == AttrError::NotAsync),
            f.is_async ==> (r matches Ok(p) && {
                &&& p.marker@ == f.name@
                &&& p.renamed@ == "_"@ + f.name@
                &&& p.response@ == match f.output {
                    Some(o) => o@,
                    None => "()"@,
                }
                &&& p.route@ == self.route@
            }),
    {
        if !f.is_async {
            return Err(AttrError::NotAsync);
        }
        let mut renamed = String::from_str("_");
        renamed.append(f.name.as_str());
        let response = match &f.output {
            Some(o) => o.clone(),
            None => String::from_str("()"),
        };
        Ok(ActionPlan { marker: f.name.clone(), renamed, response, route: self.route.clone() })
    }
}

} // verus!
