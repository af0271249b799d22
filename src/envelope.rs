use vstd::prelude::*;
use base64::Engine;
use crate::headers::header_pairs;
use crate::text::{all_ascii, ascii_chars, decode_utf8, utf8_decoded};

verus! {

/// The response that the router produced for a request.
pub struct ResponseDescriptor {
    pub status: u16,
    pub headers: Vec<(String, String)>,
    pub body: Vec<u8>,
}

/// The response handed back to the invoking runtime.
pub struct InvocationResponse {
    pub status_code: u16,
    pub headers: Vec<(String, String)>,
    pub body: String,
    /// Whether `body` is the base64 text of a body that was not UTF-8.
    pub is_base64_encoded: bool,
}

/// The standard, padded base64 text of a byte sequence.
pub uninterp spec fn base64_encoded(b: Seq<u8>) -> Seq<char>;

/// Relies on base64's `STANDARD` engine `encode`: the text depends on the input bytes
/// alone, and no bytes give no text.
#[verifier::external_body]
fn encode_base64(b: &[u8]) -> (r: String)
    ensures
        r@ == base64_encoded(b@),
        b@.len() == 0 ==> r@.len() == 0,
{
    base64::engine::general_purpose::STANDARD.encode(b)
}

/// Puts a response together from its status, its headers and its body as text:
/// `text` is the body where it was UTF-8, otherwise the body goes out in base64.
pub fn envelope(status: u16, headers: Vec<(String, String)>, text: Option<String>, body: &Vec<u8>) -> (r: InvocationResponse)
    ensures
        r.status_code == status,
        header_pairs(r.headers@) == header_pairs(headers@),
        match text {
            Some(t) => r.body@ == t@ && !r.is_base64_encoded,
            None => r.body@ == base64_encoded(body@) && r.is_base64_encoded,
        },
{
    match text {
        Some(t) => InvocationResponse { status_code: status, headers, body: t, is_base64_encoded: false },
        None => InvocationResponse {
            status_code: status,
            headers,
            body: encode_base64(body.as_slice()),
            is_base64_encoded: true,
        },
    }
}

/// Turns the router's response into the runtime's response: the status and the
/// headers as they are, the body as text where it is UTF-8 and in base64 otherwise.
pub fn build_response(d: ResponseDescriptor) -> (r: InvocationResponse)
    ensures
        r.status_code == d.status,
        header_pairs(r.headers@) == header_pairs(d.headers@),
        match utf8_decoded(d.body@) {
            Some(t) => r.body@ == t && !r.is_base64_encoded,
            None => r.body@ == base64_encoded(d.body@) && r.is_base64_encoded,
        },
        d.body@.len() == 0 ==> r.body@.len() == 0 && !r.is_base64_encoded,
        all_ascii(d.body@) ==> r.body@ == ascii_chars(d.body@) && !r.is_base64_encoded,
{
    let text = decode_utf8(d.body.clone());
    envelope(d.status, d.headers, text, &d.body)
}

} // verus!
