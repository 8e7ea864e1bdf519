use infra_builder::annotation::{AnnotationArg, Diagnostic, RouteMapping};
use infra_builder::method::{HttpMethod, UnknownMethod};

fn ident(text: &str) -> AnnotationArg {
    AnnotationArg::Ident(text.to_string())
}

fn lit(value: &str) -> AnnotationArg {
    AnnotationArg::StrLit(value.to_string())
}

fn read(args: Vec<AnnotationArg>) -> Result<RouteMapping, Diagnostic> {
    infra_builder::route(&args, "main")
}

const VOCABULARY: &str = "GET, POST, PUT, DELETE, HEAD or OPTIONS";

#[test]
fn route() {
    // a well-formed annotation is accepted
    assert!(read(vec![ident("GET"), lit("/")]).is_ok());
    // too few arguments
    assert!(read(vec![ident("GET")]).is_err());
    // too many arguments
    assert!(read(vec![ident("GET"), lit("/"), lit("/extra")]).is_err());
    // an invalid HTTP method
    assert!(read(vec![ident("FOO"), lit("/")]).is_err());
}

#[test]
fn well_formed_annotation_gives_the_route() {
    let mapping = read(vec![ident("GET"), lit("/x")]).unwrap();
    assert_eq!(
        mapping,
        RouteMapping {
            method: HttpMethod::Get,
            path: "/x".to_string(),
            handler_name: "main".to_string(),
        }
    );
}

#[test]
fn handler_name_is_the_annotated_function() {
    let args = vec![ident("post"), lit("/orders")];
    let mapping = infra_builder::annotation::route(&args, "create_order").unwrap();
    assert_eq!(mapping.handler_name, "create_order");
    assert_eq!(mapping.method, HttpMethod::Post);
    assert_eq!(mapping.path, "/orders");
}

#[test]
fn any_string_literal_is_a_path() {
    assert_eq!(read(vec![ident("GET"), lit("")]).unwrap().path, "");
    assert_eq!(read(vec![ident("GET"), lit("no-slash")]).unwrap().path, "no-slash");
}

#[test]
fn one_argument_is_missing_the_path() {
    let d = read(vec![ident("GET")]).unwrap_err();
    assert!(matches!(d, Diagnostic::MissingPath { method: Some(HttpMethod::Get) }));
    assert!(d.message().contains("missing second argument"));
    assert_eq!(
        d.message(),
        "missing second argument: expected a route path string literal, e.g. `#[route(GET, \"/some/path\")]`"
    );
    assert_eq!(d.argument_index(), None);
}

#[test]
fn missing_path_example_repeats_a_lower_case_method_in_upper_case() {
    let d = read(vec![ident("delete")]).unwrap_err();
    assert_eq!(
        d.message(),
        "missing second argument: expected a route path string literal, e.g. `#[route(DELETE, \"/some/path\")]`"
    );
}

#[test]
fn missing_path_example_keeps_the_placeholder_for_an_unknown_method() {
    let expected =
        "missing second argument: expected a route path string literal, e.g. `#[route(METHOD, \"/some/path\")]`";
    assert_eq!(read(vec![ident("FOO")]).unwrap_err().message(), expected);
    assert_eq!(read(vec![lit("/x")]).unwrap_err().message(), expected);
    assert_eq!(read(vec![AnnotationArg::Other]).unwrap_err().message(), expected);
    assert_eq!(read(vec![]).unwrap_err().message(), expected);
}

#[test]
fn three_arguments_are_too_many() {
    let d = read(vec![ident("GET"), lit("/"), lit("/extra")]).unwrap_err();
    assert!(matches!(d, Diagnostic::TooManyArguments));
    assert!(d.message().contains("too many arguments"));
    assert_eq!(
        d.message(),
        "too many arguments: route requires exactly 2 (HTTP method, URL path)"
    );
    assert_eq!(d.argument_index(), Some(2));
}

#[test]
fn arity_is_judged_before_the_method() {
    let d = read(vec![ident("FOO"), lit("/"), AnnotationArg::Other]).unwrap_err();
    assert!(matches!(d, Diagnostic::TooManyArguments));
}

#[test]
fn unknown_method_is_named_as_written() {
    let d = read(vec![ident("FOO"), lit("/")]).unwrap_err();
    assert!(d.message().contains("invalid HTTP method 'FOO'"));
    assert_eq!(
        d.message(),
        format!("invalid HTTP method 'FOO'. Valid HTTP method values are {}", VOCABULARY)
    );
    assert_eq!(d.argument_index(), Some(0));
    match d {
        Diagnostic::InvalidMethod(UnknownMethod { raw }) => assert_eq!(raw, "FOO"),
        other => panic!("unexpected diagnostic {:?}", other),
    }
    let lower = read(vec![ident("fetch"), lit("/")]).unwrap_err();
    assert!(lower.message().contains("invalid HTTP method 'fetch'"));
}

#[test]
fn method_is_judged_before_the_path() {
    let d = read(vec![ident("FOO"), AnnotationArg::Other]).unwrap_err();
    assert!(matches!(d, Diagnostic::InvalidMethod(_)));
}

#[test]
fn second_argument_must_be_a_string_literal() {
    // the annotation `GET, 123`
    let d = read(vec![ident("GET"), AnnotationArg::Other]).unwrap_err();
    assert!(matches!(d, Diagnostic::ExpectedPath));
    assert_eq!(d.message(), "expected route path string as the second argument");
    assert_eq!(d.argument_index(), Some(1));
    let d = read(vec![ident("GET"), ident("path")]).unwrap_err();
    assert_eq!(d.message(), "expected route path string as the second argument");
}

#[test]
fn first_argument_must_be_an_identifier() {
    let d = read(vec![lit("GET"), lit("/")]).unwrap_err();
    assert!(matches!(d, Diagnostic::ExpectedMethod));
    assert_eq!(
        d.message(),
        format!(
            "expected HttpMethod as the first argument. Valid HTTP method values are {}",
            VOCABULARY
        )
    );
    assert_eq!(d.argument_index(), Some(0));
}

#[test]
fn annotation_round_trips() {
    for method in HttpMethod::all() {
        for path in ["/", "/x", "/users/{id}", "", "\"quoted\""] {
            let mapping = RouteMapping {
                method,
                path: path.to_string(),
                handler_name: "main".to_string(),
            };
            let args = mapping.annotation_args();
            assert_eq!(args, vec![ident(method.as_str()), lit(path)]);
            assert_eq!(read(args), Ok(mapping.clone()));
            assert_eq!(mapping.duplicate(), mapping);
        }
    }
}
