//! The closed vocabulary of HTTP methods a route may name.

use vstd::prelude::*;
use vstd::string::*;
use crate::text::same_text;

verus! {

/// An HTTP method accepted in a route annotation.
#[derive(Clone, Copy, Debug, PartialEq, Eq, Structural)]
pub enum HttpMethod {
    Get,
    Post,
    Put,
    Delete,
    Head,
    Options,
}

/// A token that names no method of the vocabulary. `raw` is the token as it
/// was written, before any case normalisation.
#[derive(Clone, Debug, PartialEq, Eq)]
pub struct UnknownMethod {
    pub raw: String,
}

/// The upper-case form that `str::to_uppercase` gives a text. Unicode decides
/// it, character by character and sometimes one to many, so it is named here
/// and not spelled out.
pub uninterp spec fn uppercase_of(text: Seq<char>) -> Seq<char>;

/// Calls `str::to_uppercase`. The result is the upper-case form of `token`
/// and depends on nothing else.
#[verifier::external_body]
fn to_upper(token: &str) -> (r: String)
    ensures
        r@ == uppercase_of(token@),
{
    token.to_uppercase()
}

/// The vocabulary in declaration order.
pub open spec fn vocabulary() -> Seq<HttpMethod> {
    seq![
        HttpMethod::Get,
        HttpMethod::Post,
        HttpMethod::Put,
        HttpMethod::Delete,
        HttpMethod::Head,
        HttpMethod::Options,
    ]
}

/// The method whose word is exactly `word`, if there is one.
pub open spec fn method_named(word: Seq<char>) -> Option<HttpMethod> {
    if word == "GET"@ {
        Some(HttpMethod::Get)
    } else if word == "POST"@ {
        Some(HttpMethod::Post)
    } else if word == "PUT"@ {
        Some(HttpMethod::Put)
    } else if word == "DELETE"@ {
        Some(HttpMethod::Delete)
    } else if word == "HEAD"@ {
        Some(HttpMethod::Head)
    } else if word == "OPTIONS"@ {
        Some(HttpMethod::Options)
    } else {
        None
    }
}

/// The method that a token with the upper-case form `upper` stands for: the
/// one whose word is the token itself or that form.
pub open spec fn method_of_forms(token: Seq<char>, upper: Seq<char>) -> Option<HttpMethod> {
    match method_named(token) {
        Some(m) => Some(m),
        None => method_named(upper),
    }
}

/// Whether `token` is the word of `m` up to case: as written, or in its
/// upper-case form.
pub open spec fn names_ignoring_case(token: Seq<char>, m: HttpMethod) -> bool {
    token == m.word() || uppercase_of(token) == m.word()
}

/// Whether `token` is in the vocabulary up to case.
pub open spec fn in_vocabulary(token: Seq<char>) -> bool {
    exists|m: HttpMethod| names_ignoring_case(token, m)
}

/// The method a token stands for: the one whose word is the token itself or
/// the token's upper-case form.
pub open spec fn parsed_method(token: Seq<char>) -> Option<HttpMethod> {
    method_of_forms(token, uppercase_of(token))
}

/// The words of `items` with `", "` between neighbours.
pub open spec fn comma_joined(items: Seq<HttpMethod>) -> Seq<char>
    decreases items.len(),
{
    if items.len() == 0 {
        Seq::empty()
    } else if items.len() == 1 {
        items[0].word()
    } else {
        comma_joined(items.drop_last()) + ", "@ + items.last().word()
    }
}

/// A list for diagnostics: `A, B, C or D`. One item renders as itself, no item
/// as the empty text.
pub open spec fn rendered(items: Seq<HttpMethod>) -> Seq<char> {
    if items.len() == 0 {
        Seq::empty()
    } else if items.len() == 1 {
        items[0].word()
    } else {
        comma_joined(items.drop_last()) + " or "@ + items.last().word()
    }
}

/// The text of the diagnostic for an unknown method token.
pub open spec fn unknown_method_text(raw: Seq<char>) -> Seq<char> {
    "invalid HTTP method '"@ + raw + "'. Valid HTTP method values are "@ + rendered(vocabulary())
}

impl HttpMethod {
    /// The upper-case word that stands for the method in source text and in
    /// diagnostics.
    pub open spec fn word(self) -> Seq<char> {
        match self {
            HttpMethod::Get => "GET"@,
            HttpMethod::Post => "POST"@,
            HttpMethod::Put => "PUT"@,
            HttpMethod::Delete => "DELETE"@,
            HttpMethod::Head => "HEAD"@,
            HttpMethod::Options => "OPTIONS"@,
        }
    }

    /// The method's word as a string slice.
    pub fn as_str(self) -> (r: &'static str)
        ensures
            r@ == self.word(),
    {
        match self {
            HttpMethod::Get => "GET",
            HttpMethod::Post => "POST",
            HttpMethod::Put => "PUT",
            HttpMethod::Delete => "DELETE",
            HttpMethod::Head => "HEAD",
            HttpMethod::Options => "OPTIONS",
        }
    }

    /// Every method, in declaration order.
    pub fn all() -> (r: Vec<HttpMethod>)
        ensures
            r@ == vocabulary(),
    {
        let mut r: Vec<HttpMethod> = Vec::new();
        r.push(HttpMethod::Get);
        r.push(HttpMethod::Post);
        r.push(HttpMethod::Put);
        r.push(HttpMethod::Delete);
        r.push(HttpMethod::Head);
        r.push(HttpMethod::Options);
        assert(r@ =~= vocabulary());
        r
    }

    /// The method whose word is exactly `word`.
    pub fn from_word(word: &str) -> (r: Option<HttpMethod>)
        ensures
            r == method_named(word@),
    {
        if same_text(word, "GET") {
            Some(HttpMethod::Get)
        } else if same_text(word, "POST") {
            Some(HttpMethod::Post)
        } else if same_text(word, "PUT") {
            Some(HttpMethod::Put)
        } else if same_text(word, "DELETE") {
            Some(HttpMethod::Delete)
        } else if same_text(word, "HEAD") {
            Some(HttpMethod::Head)
        } else if same_text(word, "OPTIONS") {
            Some(HttpMethod::Options)
        } else {
            None
        }
    }

    /// Reads a method token without regard to case. A token already in its
    /// canonical form is recognised as it stands; any other is upper-cased
    /// first. A token that names no method is handed back in the error, as
    /// written.
    pub fn parse(token: &str) -> (r: Result<HttpMethod, UnknownMethod>)
        ensures
            match r {
                Ok(m) => parsed_method(token@) == Some(m) && names_ignoring_case(token@, m),
                Err(e) => parsed_method(token@).is_none() && e.raw@ == token@,
            },
            r.is_err() <==> !in_vocabulary(token@),
    {
        let upper = to_upper(token);
        proof {
            unknown_method_names_the_vocabulary(token@);
        }
        HttpMethod::from_forms(token, upper.as_str())
    }

    /// Decides on a token once its upper-case form `upper` is at hand: the
    /// method whose word is the token or that form, or else the token in the
    /// error, as written.
    pub fn from_forms(token: &str, upper: &str) -> (r: Result<HttpMethod, UnknownMethod>)
        ensures
            match r {
                Ok(m) => method_of_forms(token@, upper@) == Some(m),
                Err(e) => method_of_forms(token@, upper@).is_none() && e.raw@ == token@,
            },
    {
        if let Some(m) = HttpMethod::from_word(token) {
            return Ok(m);
        }
        match HttpMethod::from_word(upper) {
            Some(m) => Ok(m),
            None => Err(UnknownMethod { raw: String::from_str(token) }),
        }
    }

    /// Renders a list of methods for a diagnostic, as `A, B, C or D`.
    pub fn render_list(items: &Vec<HttpMethod>) -> (r: String)
        ensures
            r@ == rendered(items@),
    {
        let mut result = String::new();
        let n: usize = items.len();
        if n == 0 {
            return result;
        }
        result.append(items[0].as_str());
        if n == 1 {
            return result;
        }
        assert(items@.subrange(0, 1).len() == 1);
        let mut i: usize = 1;
        while i < n - 1
            invariant
                n == items.len(),
                n >= 2,
                1 <= i <= n - 1,
                result@ == comma_joined(items@.subrange(0, i as int)),
            decreases n - i,
        {
            result.append(", ");
            result.append(items[i].as_str());
            proof {
                let next = items@.subrange(0, i + 1);
                assert(next.drop_last() =~= items@.subrange(0, i as int));
                assert(next.last() == items@[i as int]);
            }
            i += 1;
        }
        result.append(" or ");
        result.append(items[n - 1].as_str());
        assert(items@.drop_last() =~= items@.subrange(0, n - 1));
        result
    }

    /// The whole vocabulary, rendered for a diagnostic.
    pub fn stringified_all() -> (r: String)
        ensures
            r@ == rendered(vocabulary()),
    {
        let all = HttpMethod::all();
        HttpMethod::render_list(&all)
    }
}

impl UnknownMethod {
    /// The diagnostic: what was found, and which values are valid.
    pub fn message(&self) -> (r: String)
        ensures
            r@ == unknown_method_text(self.raw@),
    {
        let mut text = String::from_str("invalid HTTP method '");
        text.append(self.raw.as_str());
        text.append("'. Valid HTTP method values are ");
        let all = HttpMethod::stringified_all();
        text.append(all.as_str());
        text
    }
}

/// Whether `needle` occurs in `text` as a run of neighbouring characters.
pub open spec fn occurs_in(needle: Seq<char>, text: Seq<char>) -> bool {
    exists|at: int|
        0 <= at && at + needle.len() <= text.len() && #[trigger] text.subrange(
            at,
            at + needle.len(),
        ) == needle
}

/// Every method is found again under its own word, with or without case
/// normalisation: no two methods share a word.
pub proof fn word_names_its_method(m: HttpMethod)
    ensures
        method_named(m.word()) == Some(m),
        parsed_method(m.word()) == Some(m),
{
    reveal_strlit("GET");
    reveal_strlit("POST");
    reveal_strlit("PUT");
    reveal_strlit("DELETE");
    reveal_strlit("HEAD");
    reveal_strlit("OPTIONS");
    assert("GET"@.len() == 3 && "PUT"@.len() == 3);
    assert("POST"@.len() == 4 && "HEAD"@.len() == 4);
    assert("DELETE"@.len() == 6 && "OPTIONS"@.len() == 7);
    assert("GET"@[0] != "PUT"@[0]);
    assert("POST"@[0] != "HEAD"@[0]);
}

/// A token that is not in the vocabulary up to case stands for no method, and
/// only such a token: there is no default. The diagnostic for a rejected token
/// holds the rendered vocabulary and the token as written.
pub proof fn unknown_method_names_the_vocabulary(raw: Seq<char>)
    ensures
        parsed_method(raw).is_none() <==> !in_vocabulary(raw),
        parsed_method(raw) matches Some(m) ==> names_ignoring_case(raw, m),
        occurs_in(rendered(vocabulary()), unknown_method_text(raw)),
        occurs_in(raw, unknown_method_text(raw)),
{
    let text = unknown_method_text(raw);
    let list = rendered(vocabulary());
    let start: int = "invalid HTTP method '"@.len() as int;
    assert(text.subrange(text.len() - list.len(), text.len() - list.len() + list.len()) =~= list);
    assert(text.subrange(start, start + raw.len()) =~= raw);
    if parsed_method(raw).is_none() {
        assert forall|m: HttpMethod| !names_ignoring_case(raw, m) by {
            word_names_its_method(m);
        }
    } else {
        let m = parsed_method(raw).unwrap();
        assert(names_ignoring_case(raw, m));
    }
}

/// The six-method vocabulary renders as one fixed text, in declaration order.
pub proof fn vocabulary_renders_in_declaration_order()
    ensures
        rendered(vocabulary()) == "GET, POST, PUT, DELETE, HEAD or OPTIONS"@,
{
    reveal_strlit("GET");
    reveal_strlit("POST");
    reveal_strlit("PUT");
    reveal_strlit("DELETE");
    reveal_strlit("HEAD");
    reveal_strlit("OPTIONS");
    reveal_strlit(", ");
    reveal_strlit(" or ");
    reveal_strlit("GET, POST, PUT, DELETE, HEAD or OPTIONS");
    let v = vocabulary();
    let v5 = v.drop_last();
    let v4 = v5.drop_last();
    let v3 = v4.drop_last();
    let v2 = v3.drop_last();
    let v1 = v2.drop_last();
    assert(comma_joined(v1) =~= "GET"@);
    assert(comma_joined(v2) =~= comma_joined(v1) + ", "@ + "POST"@);
    assert(comma_joined(v3) =~= comma_joined(v2) + ", "@ + "PUT"@);
    assert(comma_joined(v4) =~= comma_joined(v3) + ", "@ + "DELETE"@);
    assert(comma_joined(v5) =~= comma_joined(v4) + ", "@ + "HEAD"@);
    assert(rendered(v) =~= "GET, POST, PUT, DELETE, HEAD or OPTIONS"@);
}

/// A list of one method renders as that method's word, with no separator.
pub proof fn single_method_renders_as_its_word(m: HttpMethod)
    ensures
        rendered(seq![m]) == m.word(),
{
}

} // verus!
