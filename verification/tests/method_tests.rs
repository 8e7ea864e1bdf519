use infra_builder::method::HttpMethod;
use infra_builder::text::same_text;

#[test]
fn vocabulary_is_rendered_in_declaration_order() {
    assert_eq!(HttpMethod::stringified_all(), "GET, POST, PUT, DELETE, HEAD or OPTIONS");
}

#[test]
fn all_lists_the_six_methods() {
    assert_eq!(
        HttpMethod::all(),
        vec![
            HttpMethod::Get,
            HttpMethod::Post,
            HttpMethod::Put,
            HttpMethod::Delete,
            HttpMethod::Head,
            HttpMethod::Options,
        ]
    );
}

#[test]
fn single_method_renders_without_separator() {
    assert_eq!(HttpMethod::render_list(&vec![HttpMethod::Put]), "PUT");
}

#[test]
fn short_lists_render() {
    assert_eq!(HttpMethod::render_list(&vec![]), "");
    assert_eq!(HttpMethod::render_list(&vec![HttpMethod::Get, HttpMethod::Post]), "GET or POST");
    assert_eq!(
        HttpMethod::render_list(&vec![HttpMethod::Head, HttpMethod::Get, HttpMethod::Head]),
        "HEAD, GET or HEAD"
    );
}

#[test]
fn words_are_upper_case() {
    assert_eq!(HttpMethod::Get.as_str(), "GET");
    assert_eq!(HttpMethod::Post.as_str(), "POST");
    assert_eq!(HttpMethod::Put.as_str(), "PUT");
    assert_eq!(HttpMethod::Delete.as_str(), "DELETE");
    assert_eq!(HttpMethod::Head.as_str(), "HEAD");
    assert_eq!(HttpMethod::Options.as_str(), "OPTIONS");
}

#[test]
fn every_word_parses_to_its_method() {
    for method in HttpMethod::all() {
        assert_eq!(HttpMethod::parse(method.as_str()).unwrap(), method);
        assert_eq!(HttpMethod::from_word(method.as_str()), Some(method));
    }
}

#[test]
fn parsing_ignores_case() {
    assert_eq!(HttpMethod::parse("get").unwrap(), HttpMethod::Get);
    assert_eq!(HttpMethod::parse("Post").unwrap(), HttpMethod::Post);
    assert_eq!(HttpMethod::parse("pUt").unwrap(), HttpMethod::Put);
    assert_eq!(HttpMethod::parse("delete").unwrap(), HttpMethod::Delete);
    assert_eq!(HttpMethod::parse("hEAD").unwrap(), HttpMethod::Head);
    assert_eq!(HttpMethod::parse("options").unwrap(), HttpMethod::Options);
}

#[test]
fn exact_match_is_case_sensitive() {
    assert_eq!(HttpMethod::from_word("get"), None);
    assert_eq!(HttpMethod::from_word(""), None);
    assert_eq!(HttpMethod::from_word("GETS"), None);
}

#[test]
fn upper_casing_follows_unicode() {
    // the long s has S as its upper-case form
    assert_eq!(HttpMethod::parse("po\u{17f}t").unwrap(), HttpMethod::Post);
}

#[test]
fn unknown_tokens_are_rejected_with_the_vocabulary() {
    for token in ["FOO", "foo", "", "PATCH", "GE T", "GET ", "TRACE", "connect"] {
        let unknown = HttpMethod::parse(token).unwrap_err();
        assert_eq!(unknown.raw, token);
        let message = unknown.message();
        assert!(message.contains("GET, POST, PUT, DELETE, HEAD or OPTIONS"));
        assert_eq!(
            message,
            format!(
                "invalid HTTP method '{}'. Valid HTTP method values are GET, POST, PUT, DELETE, HEAD or OPTIONS",
                token
            )
        );
    }
}

#[test]
fn same_text_compares_characters() {
    assert!(same_text("abc", "abc"));
    assert!(same_text("", ""));
    assert!(!same_text("abc", "abd"));
    assert!(!same_text("abc", "ab"));
}

#[test]
fn token_or_its_upper_case_form_decides() {
    assert_eq!(HttpMethod::from_forms("get", "GET").unwrap(), HttpMethod::Get);
    assert_eq!(HttpMethod::from_forms("HEAD", "HEAD").unwrap(), HttpMethod::Head);
    assert_eq!(HttpMethod::from_forms("PUT", "unrelated").unwrap(), HttpMethod::Put);
    assert_eq!(HttpMethod::from_forms("foo", "FOO").unwrap_err().raw, "foo");
    assert_eq!(HttpMethod::from_forms("get", "get").unwrap_err().raw, "get");
}
