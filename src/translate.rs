use vstd::prelude::*;
use base64::Engine;
use crate::headers::{normalize_headers, normalized, header_pairs};
use crate::method::{HttpMethod, method_name, method_of, parse_method, lemma_method_name_round_trip};

verus! {

/// The error base64 reports on text that it cannot decode.
#[verifier::external_type_specification]
#[verifier::external_body]
pub struct ExDecodeError(base64::DecodeError);

/// The bytes that standard, padded base64 text decodes to, or `None` where it does
/// not decode.
pub uninterp spec fn base64_decoded(text: Seq<u8>) -> Option<Seq<u8>>;

/// The bytes of a successful decoding.
pub open spec fn decoded_bytes(r: Result<Vec<u8>, base64::DecodeError>) -> Option<Seq<u8>> {
    match r {
        Ok(v) => Some(v@),
        Err(_) => None,
    }
}

/// Relies on base64's `STANDARD` engine `decode`: the outcome depends on the input
/// bytes alone.
#[verifier::external_body]
fn decode_base64(text: &[u8]) -> (r: Result<Vec<u8>, base64::DecodeError>)
    ensures
        decoded_bytes(r) == base64_decoded(text@),
{
    base64::engine::general_purpose::STANDARD.decode(text)
}

/// One invocation event, as the invoking runtime delivers it.
pub struct InvocationEvent {
    pub method: Option<String>,
    pub path: Option<String>,
    /// Header names with their raw values, in the order received; a name may repeat.
    pub headers: Vec<(String, Vec<u8>)>,
    pub body: Option<Vec<u8>>,
    /// Whether `body` holds base64 text rather than the bytes themselves.
    pub body_is_base64: bool,
}

/// The HTTP request rebuilt from an event.
pub struct InvocationRequest {
    pub method: HttpMethod,
    pub path: String,
    pub headers: Vec<(String, String)>,
    pub body: Option<Vec<u8>>,
}

/// The abstract value of a rebuilt request.
pub ghost struct RequestView {
    pub method: HttpMethod,
    pub path: Seq<char>,
    pub headers: Seq<(Seq<char>, Seq<char>)>,
    pub body: Option<Seq<u8>>,
}

impl View for InvocationRequest {
    type V = RequestView;

    open spec fn view(&self) -> RequestView {
        RequestView {
            method: self.method,
            path: self.path@,
            headers: header_pairs(self.headers@),
            body: match self.body {
                Some(b) => Some(b@),
                None => None,
            },
        }
    }
}

/// Why an event could not be turned into a request.
#[derive(Clone, Copy, Debug, PartialEq, Eq, Structural)]
pub enum TranslationError {
    MissingMethod,
    UnsupportedMethod,
    MissingPath,
    MalformedBody,
}

impl TranslationError {
    /// A short description for the invoking runtime.
    pub fn message(&self) -> (r: &'static str)
        ensures
            *self == TranslationError::MissingMethod ==> r@ == "couldn't determine HTTP method"@,
            *self == TranslationError::UnsupportedMethod ==> r@ == "unsupported HTTP method"@,
            *self == TranslationError::MissingPath ==> r@ == "couldn't determine path"@,
            *self == TranslationError::MalformedBody ==> r@ == "body is not valid base64"@,
    {
        match self {
            TranslationError::MissingMethod => "couldn't determine HTTP method",
            TranslationError::UnsupportedMethod => "unsupported HTTP method",
            TranslationError::MissingPath => "couldn't determine path",
            TranslationError::MalformedBody => "body is not valid base64",
        }
    }
}

/// The body that an event carries, decoded from base64 where it is flagged so.
pub open spec fn event_body(e: InvocationEvent) -> Result<Option<Seq<u8>>, TranslationError> {
    match e.body {
        None => Ok(None),
        Some(b) => if e.body_is_base64 {
            match base64_decoded(b@) {
                Some(d) => Ok(Some(d)),
                None => Err(TranslationError::MalformedBody),
            }
        } else {
            Ok(Some(b@))
        },
    }
}

/// What an event translates to: the first missing or invalid field, checked in the
/// order method, path, body, as an error; otherwise the request.
pub open spec fn translation(e: InvocationEvent) -> Result<RequestView, TranslationError> {
    match e.method {
        None => Err(TranslationError::MissingMethod),
        Some(name) => match method_of(name@) {
            None => Err(TranslationError::UnsupportedMethod),
            Some(m) => match e.path {
                None => Err(TranslationError::MissingPath),
                Some(p) => match event_body(e) {
                    Err(err) => Err(err),
                    Ok(body) => Ok(
                        RequestView { method: m, path: p@, headers: normalized(e.headers@), body },
                    ),
                },
            },
        },
    }
}

/// The abstract value of a translation outcome.
pub open spec fn outcome_view(r: Result<InvocationRequest, TranslationError>) -> Result<
    RequestView,
    TranslationError,
> {
    match r {
        Ok(req) => Ok(req@),
        Err(err) => Err(err),
    }
}

/// Reads the body of an event, decoding it from base64 where it is flagged so.
pub fn decode_body(e: &InvocationEvent) -> (r: Result<Option<Vec<u8>>, TranslationError>)
    ensures
        event_body(*e) == (match r {
            Ok(Some(b)) => Ok(Some(b@)),
            Ok(None) => Ok(None),
            Err(err) => Err::<Option<Seq<u8>>, TranslationError>(err),
        }),
{
    match &e.body {
        None => Ok(None),
        Some(b) => {
            if e.body_is_base64 {
                match decode_base64(b.as_slice()) {
                    Ok(d) => Ok(Some(d)),
                    Err(_) => Err(TranslationError::MalformedBody),
                }
            } else {
                Ok(Some(b.clone()))
            }
        },
    }
}

/// Rebuilds the HTTP request that an invocation event describes.
pub fn translate(e: &InvocationEvent) -> (r: Result<InvocationRequest, TranslationError>)
    ensures
        outcome_view(r) == translation(*e),
{
    let method = match &e.method {
        None => {
            return Err(TranslationError::MissingMethod);
        },
        Some(name) => match parse_method(name.as_str()) {
            None => {
                return Err(TranslationError::UnsupportedMethod);
            },
            Some(m) => m,
        },
    };
    let path = match &e.path {
        None => {
            return Err(TranslationError::MissingPath);
        },
        Some(p) => p.clone(),
    };
    let headers = normalize_headers(&e.headers);
    let body = match decode_body(e) {
        Err(err) => {
            return Err(err);
        },
        Ok(b) => b,
    };
    Ok(InvocationRequest { method, path, headers, body })
}

/// An event that names a supported verb, carries a path and has a readable body
/// translates to a request with that very verb and path.
pub proof fn lemma_translate_keeps_verb(e: InvocationEvent, m: HttpMethod)
    requires
        e.method matches Some(name) && name@ == method_name(m),
        e.path is Some,
        event_body(e) is Ok,
    ensures
        translation(e) matches Ok(req) && req.method == m && req.path == e.path->0@,
{
    lemma_method_name_round_trip(m);
}

/// An event without a method fails with `MissingMethod`; one with a supported verb
/// but no path fails with `MissingPath`.
pub proof fn lemma_translate_missing_fields(e: InvocationEvent)
    ensures
        e.method is None ==> translation(e) == Err::<RequestView, TranslationError>(
            TranslationError::MissingMethod,
        ),
        (e.method matches Some(name) && method_of(name@) is Some && e.path is None)
            ==> translation(e) == Err::<RequestView, TranslationError>(
            TranslationError::MissingPath,
        ),
{
}

/// Translation reads nothing but its own event: two events that translate give
/// requests whose paths are their own, so requests for distinct paths stay distinct.
pub proof fn lemma_translations_independent(e1: InvocationEvent, e2: InvocationEvent)
    requires
        translation(e1) is Ok,
        translation(e2) is Ok,
    ensures
        translation(e1)->Ok_0.path == e1.path->0@,
        translation(e2)->Ok_0.path == e2.path->0@,
        e1.path->0@ != e2.path->0@ ==> translation(e1)->Ok_0.path != translation(e2)->Ok_0.path,
{
}

} // verus!
