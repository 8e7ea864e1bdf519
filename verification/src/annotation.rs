//! Reading a route annotation: two arguments, an HTTP method and a path, become
//! a route mapping, and anything else becomes a diagnostic.

use vstd::prelude::*;
use vstd::string::*;
use crate::method::{
    HttpMethod, UnknownMethod, in_vocabulary, occurs_in, parsed_method, rendered,
    unknown_method_names_the_vocabulary, unknown_method_text, vocabulary, word_names_its_method,
};

verus! {

/// One argument of an annotation, as far as a route cares about it.
#[derive(Clone, Debug, PartialEq, Eq)]
pub enum AnnotationArg {
    /// A bare identifier, such as `GET`, by its text.
    Ident(String),
    /// A string literal, by its value.
    StrLit(String),
    /// Any other token.
    Other,
}

/// What an `AnnotationArg` holds.
pub enum ArgView {
    Ident(Seq<char>),
    StrLit(Seq<char>),
    Other,
}

impl View for AnnotationArg {
    type V = ArgView;

    open spec fn view(&self) -> ArgView {
        match self {
            AnnotationArg::Ident(text) => ArgView::Ident(text@),
            AnnotationArg::StrLit(value) => ArgView::StrLit(value@),
            AnnotationArg::Other => ArgView::Other,
        }
    }
}

/// The route that one entry point serves.
#[derive(Clone, Debug, PartialEq, Eq)]
pub struct RouteMapping {
    pub method: HttpMethod,
    pub path: String,
    pub handler_name: String,
}

/// What a `RouteMapping` holds.
pub struct RouteView {
    pub method: HttpMethod,
    pub path: Seq<char>,
    pub handler_name: Seq<char>,
}

impl View for RouteMapping {
    type V = RouteView;

    open spec fn view(&self) -> RouteView {
        RouteView { method: self.method, path: self.path@, handler_name: self.handler_name@ }
    }
}

/// Why an annotation gave no route.
#[derive(Clone, Debug, PartialEq, Eq)]
pub enum Diagnostic {
    /// Fewer than two arguments. `method` is the first argument's method, where
    /// there is a first argument and it names one.
    MissingPath { method: Option<HttpMethod> },
    /// More than two arguments.
    TooManyArguments,
    /// The first argument is no identifier.
    ExpectedMethod,
    /// The first argument is an identifier that names no method.
    InvalidMethod(UnknownMethod),
    /// The second argument is no string literal.
    ExpectedPath,
}

/// What a `Diagnostic` holds.
pub enum DiagnosticView {
    MissingPath { method: Option<HttpMethod> },
    TooManyArguments,
    ExpectedMethod,
    InvalidMethod { raw: Seq<char> },
    ExpectedPath,
}

impl View for Diagnostic {
    type V = DiagnosticView;

    open spec fn view(&self) -> DiagnosticView {
        match self {
            Diagnostic::MissingPath { method } => DiagnosticView::MissingPath { method: *method },
            Diagnostic::TooManyArguments => DiagnosticView::TooManyArguments,
            Diagnostic::ExpectedMethod => DiagnosticView::ExpectedMethod,
            Diagnostic::InvalidMethod(unknown) => DiagnosticView::InvalidMethod { raw: unknown.raw@ },
            Diagnostic::ExpectedPath => DiagnosticView::ExpectedPath,
        }
    }
}

/// The arguments of a list, each by what it holds.
pub open spec fn arg_views(args: Seq<AnnotationArg>) -> Seq<ArgView> {
    Seq::new(args.len(), |i: int| args[i]@)
}

/// The method that an argument names: it is an identifier, and its text
/// parses as a method.
pub open spec fn named_method(arg: ArgView) -> Option<HttpMethod> {
    match arg {
        ArgView::Ident(text) => parsed_method(text),
        _ => None,
    }
}

/// What reading an annotation gives. The number of arguments is judged first,
/// then the method, then the path.
pub open spec fn route_outcome(args: Seq<ArgView>, handler_name: Seq<char>) -> Result<
    RouteView,
    DiagnosticView,
> {
    if args.len() < 2 {
        Err(
            DiagnosticView::MissingPath {
                method: if args.len() == 1 {
                    named_method(args[0])
                } else {
                    None
                },
            },
        )
    } else if args.len() > 2 {
        Err(DiagnosticView::TooManyArguments)
    } else {
        match args[0] {
            ArgView::Ident(text) => match parsed_method(text) {
                None => Err(DiagnosticView::InvalidMethod { raw: text }),
                Some(method) => match args[1] {
                    ArgView::StrLit(path) => Ok(RouteView { method, path, handler_name }),
                    _ => Err(DiagnosticView::ExpectedPath),
                },
            },
            _ => Err(DiagnosticView::ExpectedMethod),
        }
    }
}

/// The place of the argument that a diagnostic is about, counted from 0. A
/// missing argument has no place: that diagnostic is about the annotation as a
/// whole.
pub open spec fn offending_argument(d: DiagnosticView) -> Option<usize> {
    match d {
        DiagnosticView::MissingPath { .. } => None,
        DiagnosticView::TooManyArguments => Some(2usize),
        DiagnosticView::ExpectedMethod => Some(0usize),
        DiagnosticView::InvalidMethod { .. } => Some(0usize),
        DiagnosticView::ExpectedPath => Some(1usize),
    }
}

/// The text of a diagnostic: what was expected, what was found and, for a
/// missing path, an example that repeats the method that was given.
pub open spec fn diagnostic_text(d: DiagnosticView) -> Seq<char> {
    match d {
        DiagnosticView::MissingPath { method } => {
            "missing second argument: expected a route path string literal, e.g. `#[route("@ + (
            match method {
                Some(m) => m.word(),
                None => "METHOD"@,
            }) + ", \"/some/path\")]`"@
        },
        DiagnosticView::TooManyArguments => {
            "too many arguments: route requires exactly 2 (HTTP method, URL path)"@
        },
        DiagnosticView::ExpectedMethod => {
            "expected HttpMethod as the first argument. Valid HTTP method values are "@ + rendered(
                vocabulary(),
            )
        },
        DiagnosticView::InvalidMethod { raw } => unknown_method_text(raw),
        DiagnosticView::ExpectedPath => "expected route path string as the second argument"@,
    }
}

/// The arguments that an annotation for `method` and `path` is written with.
pub open spec fn annotation_of(method: HttpMethod, path: Seq<char>) -> Seq<ArgView> {
    seq![ArgView::Ident(method.word()), ArgView::StrLit(path)]
}

impl Diagnostic {
    /// The place of the argument that the diagnostic is about.
    pub fn argument_index(&self) -> (r: Option<usize>)
        ensures
            r == offending_argument(self@),
    {
        match self {
            Diagnostic::MissingPath { .. } => None,
            Diagnostic::TooManyArguments => Some(2),
            Diagnostic::ExpectedMethod => Some(0),
            Diagnostic::InvalidMethod(_) => Some(0),
            Diagnostic::ExpectedPath => Some(1),
        }
    }

    /// The diagnostic as the user reads it.
    pub fn message(&self) -> (r: String)
        ensures
            r@ == diagnostic_text(self@),
    {
        match self {
            Diagnostic::MissingPath { method } => {
                let mut text = String::from_str(
                    "missing second argument: expected a route path string literal, e.g. `#[route(",
                );
                match method {
                    Some(m) => text.append(m.as_str()),
                    None => text.append("METHOD"),
                }
                text.append(", \"/some/path\")]`");
                text
            },
            Diagnostic::TooManyArguments => String::from_str(
                "too many arguments: route requires exactly 2 (HTTP method, URL path)",
            ),
            Diagnostic::ExpectedMethod => {
                let mut text = String::from_str(
                    "expected HttpMethod as the first argument. Valid HTTP method values are ",
                );
                let all = HttpMethod::stringified_all();
                text.append(all.as_str());
                text
            },
            Diagnostic::InvalidMethod(unknown) => unknown.message(),
            Diagnostic::ExpectedPath => String::from_str(
                "expected route path string as the second argument",
            ),
        }
    }
}

impl RouteMapping {
    /// A second mapping that holds the same route.
    pub fn duplicate(&self) -> (r: RouteMapping)
        ensures
            r@ == self@,
    {
        RouteMapping {
            method: self.method,
            path: self.path.clone(),
            handler_name: self.handler_name.clone(),
        }
    }

    /// The arguments of the annotation that declares this route.
    pub fn annotation_args(&self) -> (r: Vec<AnnotationArg>)
        ensures
            arg_views(r@) == annotation_of(self.method, self.path@),
    {
        let mut args: Vec<AnnotationArg> = Vec::new();
        args.push(AnnotationArg::Ident(String::from_str(self.method.as_str())));
        args.push(AnnotationArg::StrLit(self.path.clone()));
        assert(arg_views(args@) =~= annotation_of(self.method, self.path@));
        args
    }
}

/// Reads the arguments of a route annotation on the function `handler_name`.
/// Exactly two arguments, a method identifier and a path literal, give the
/// route; every other list gives the diagnostic for its first fault.
pub fn route(args: &Vec<AnnotationArg>, handler_name: &str) -> (r: Result<RouteMapping, Diagnostic>)
    ensures
        match r {
            Ok(mapping) => route_outcome(arg_views(args@), handler_name@) == Ok::<
                RouteView,
                DiagnosticView,
            >(mapping@),
            Err(d) => route_outcome(arg_views(args@), handler_name@) == Err::<
                RouteView,
                DiagnosticView,
            >(d@),
        },
{
    if args.len() < 2 {
        let method = if args.len() == 1 {
            match &args[0] {
                AnnotationArg::Ident(text) => match HttpMethod::parse(text.as_str()) {
                    Ok(m) => Some(m),
                    Err(_) => None,
                },
                _ => None,
            }
        } else {
            None
        };
        return Err(Diagnostic::MissingPath { method });
    }
    if args.len() > 2 {
        return Err(Diagnostic::TooManyArguments);
    }
    let method = match &args[0] {
        AnnotationArg::Ident(text) => match HttpMethod::parse(text.as_str()) {
            Ok(m) => m,
            Err(unknown) => {
                return Err(Diagnostic::InvalidMethod(unknown));
            },
        },
        _ => {
            return Err(Diagnostic::ExpectedMethod);
        },
    };
    match &args[1] {
        AnnotationArg::StrLit(path) => Ok(
            RouteMapping { method, path: path.clone(), handler_name: String::from_str(handler_name) },
        ),
        _ => Err(Diagnostic::ExpectedPath),
    }
}

/// Writing a route down as an annotation and reading it back gives the same
/// method and path, whatever the path is.
pub proof fn annotation_round_trip(method: HttpMethod, path: Seq<char>, handler_name: Seq<char>)
    ensures
        route_outcome(annotation_of(method, path), handler_name) == Ok::<RouteView, DiagnosticView>(
            RouteView { method, path, handler_name },
        ),
{
    word_names_its_method(method);
}

/// Two arguments whose first is an identifier outside the vocabulary give the
/// invalid-method diagnostic, whatever the second argument is: its text names
/// the identifier as written and holds the rendered vocabulary.
pub proof fn unknown_method_is_diagnosed(token: Seq<char>, second: ArgView, handler_name: Seq<char>)
    requires
        !in_vocabulary(token),
    ensures
        route_outcome(seq![ArgView::Ident(token), second], handler_name) == Err::<
            RouteView,
            DiagnosticView,
        >(DiagnosticView::InvalidMethod { raw: token }),
        occurs_in(
            rendered(vocabulary()),
            diagnostic_text(DiagnosticView::InvalidMethod { raw: token }),
        ),
        occurs_in(token, diagnostic_text(DiagnosticView::InvalidMethod { raw: token })),
{
    unknown_method_names_the_vocabulary(token);
}

/// A list of arguments gives a route exactly when it has two arguments, the
/// first an identifier that names a method and the second a string literal.
pub proof fn route_is_given_for_well_formed_lists(args: Seq<ArgView>, handler_name: Seq<char>)
    ensures
        route_outcome(args, handler_name).is_ok() <==> (args.len() == 2 && named_method(
            args[0],
        ).is_some() && args[1] is StrLit),
{
}

} // verus!
