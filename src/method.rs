use vstd::prelude::*;

verus! {

/// rocket's request method, declared so that its variants can be matched.
#[verifier::external_type_specification]
pub struct ExRocketMethod(rocket::http::Method);

/// The HTTP verbs that an invocation event may carry.
#[derive(Clone, Copy, Debug, PartialEq, Eq, Structural)]
pub enum HttpMethod {
    Get,
    Put,
    Post,
    Delete,
    Options,
    Head,
    Patch,
}

} // verus!

verus! {

/// Two characters that are equal once ASCII letters are folded to one case.
pub open spec fn char_eq_ignore_ascii_case(a: char, b: char) -> bool {
    ||| a == b
    ||| ('A' <= a <= 'Z' && b as u32 == a as u32 + 32)
    ||| ('A' <= b <= 'Z' && a as u32 == b as u32 + 32)
}

/// Two strings that are equal once ASCII letters are folded to one case.
pub open spec fn eq_ignore_ascii_case(s: Seq<char>, t: Seq<char>) -> bool {
    &&& s.len() == t.len()
    &&& forall|i: int| 0 <= i < s.len() ==> char_eq_ignore_ascii_case(#[trigger] s[i], t[i])
}

/// The verb rocket reads from a method name: the first one, in declaration order,
/// whose name matches without regard to ASCII case.
pub open spec fn rocket_method_of(s: Seq<char>) -> Option<rocket::http::Method> {
    if eq_ignore_ascii_case(s, "GET"@) {
        Some(rocket::http::Method::Get)
    } else if eq_ignore_ascii_case(s, "PUT"@) {
        Some(rocket::http::Method::Put)
    } else if eq_ignore_ascii_case(s, "POST"@) {
        Some(rocket::http::Method::Post)
    } else if eq_ignore_ascii_case(s, "DELETE"@) {
        Some(rocket::http::Method::Delete)
    } else if eq_ignore_ascii_case(s, "OPTIONS"@) {
        Some(rocket::http::Method::Options)
    } else if eq_ignore_ascii_case(s, "HEAD"@) {
        Some(rocket::http::Method::Head)
    } else if eq_ignore_ascii_case(s, "TRACE"@) {
        Some(rocket::http::Method::Trace)
    } else if eq_ignore_ascii_case(s, "CONNECT"@) {
        Some(rocket::http::Method::Connect)
    } else if eq_ignore_ascii_case(s, "PATCH"@) {
        Some(rocket::http::Method::Patch)
    } else {
        None
    }
}

/// Relies on rocket's `FromStr for Method`: it compares the text with each verb's
/// upper-case name, ignoring ASCII case, and fails when none matches.
#[verifier::external_body]
fn rocket_parse_method(s: &str) -> (r: Result<rocket::http::Method, ()>)
    ensures
        r == (match rocket_method_of(s@) {
            Some(m) => Ok::<rocket::http::Method, ()>(m),
            None => Err(()),
        }),
{
    <rocket::http::Method as std::str::FromStr>::from_str(s)
}

/// The name that an invocation event uses for a verb.
pub open spec fn method_name(m: HttpMethod) -> Seq<char> {
    match m {
        HttpMethod::Get => "GET"@,
        HttpMethod::Put => "PUT"@,
        HttpMethod::Post => "POST"@,
        HttpMethod::Delete => "DELETE"@,
        HttpMethod::Options => "OPTIONS"@,
        HttpMethod::Head => "HEAD"@,
        HttpMethod::Patch => "PATCH"@,
    }
}

/// The supported verb that a method name denotes, if any: rocket's reading of the
/// name, restricted to the verbs this adapter forwards.
pub open spec fn method_of(s: Seq<char>) -> Option<HttpMethod> {
    match rocket_method_of(s) {
        Some(rocket::http::Method::Get) => Some(HttpMethod::Get),
        Some(rocket::http::Method::Put) => Some(HttpMethod::Put),
        Some(rocket::http::Method::Post) => Some(HttpMethod::Post),
        Some(rocket::http::Method::Delete) => Some(HttpMethod::Delete),
        Some(rocket::http::Method::Options) => Some(HttpMethod::Options),
        Some(rocket::http::Method::Head) => Some(HttpMethod::Head),
        Some(rocket::http::Method::Patch) => Some(HttpMethod::Patch),
        _ => None,
    }
}

/// Reads a method name; `None` when it names no supported verb.
pub fn parse_method(s: &str) -> (r: Option<HttpMethod>)
    ensures
        r == method_of(s@),
{
    match rocket_parse_method(s) {
        Ok(rocket::http::Method::Get) => Some(HttpMethod::Get),
        Ok(rocket::http::Method::Put) => Some(HttpMethod::Put),
        Ok(rocket::http::Method::Post) => Some(HttpMethod::Post),
        Ok(rocket::http::Method::Delete) => Some(HttpMethod::Delete),
        Ok(rocket::http::Method::Options) => Some(HttpMethod::Options),
        Ok(rocket::http::Method::Head) => Some(HttpMethod::Head),
        Ok(rocket::http::Method::Patch) => Some(HttpMethod::Patch),
        _ => None,
    }
}

/// Names whose first characters are distinct upper-case letters never match.
proof fn lemma_first_letter_differs(s: Seq<char>, t: Seq<char>)
    requires
        s.len() > 0,
        t.len() > 0,
        'A' <= s[0] <= 'Z',
        'A' <= t[0] <= 'Z',
        s[0] != t[0],
    ensures
        !eq_ignore_ascii_case(s, t),
{
    assert(!char_eq_ignore_ascii_case(s[0], t[0]));
}

/// Every supported verb is read back from its own name.
pub proof fn lemma_method_name_round_trip(m: HttpMethod)
    ensures
        method_of(method_name(m)) == Some(m),
{
    reveal_strlit("GET");
    reveal_strlit("PUT");
    reveal_strlit("POST");
    reveal_strlit("DELETE");
    reveal_strlit("OPTIONS");
    reveal_strlit("HEAD");
    reveal_strlit("TRACE");
    reveal_strlit("CONNECT");
    reveal_strlit("PATCH");
    match m {
        HttpMethod::Put => lemma_first_letter_differs("PUT"@, "GET"@),
        HttpMethod::Head => lemma_first_letter_differs("HEAD"@, "POST"@),
        HttpMethod::Patch => lemma_first_letter_differs("PATCH"@, "TRACE"@),
        _ => {},
    }
}

} // verus!
