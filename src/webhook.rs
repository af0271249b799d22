use vstd::prelude::*;
use octocrab::models::webhook_events::{WebhookEvent, WebhookEventPayload, WebhookEventType};

verus! {

/// The error serde_json reports on a body that does not match its declared kind.
#[verifier::external_type_specification]
#[verifier::external_body]
pub struct ExJsonError(serde_json::Error);

/// The part of a decoded webhook payload that the handler reads.
pub enum WebhookPayload {
    Ping { hook_id: Option<u64>, zen: Option<String> },
    Other,
}

/// The abstract value of a decoded webhook payload.
pub ghost enum PayloadView {
    Ping { hook_id: Option<u64>, zen: Option<Seq<char>> },
    Other,
}

impl View for WebhookPayload {
    type V = PayloadView;

    open spec fn view(&self) -> PayloadView {
        match self {
            WebhookPayload::Ping { hook_id, zen } => PayloadView::Ping {
                hook_id: *hook_id,
                zen: match zen {
                    Some(z) => Some(z@),
                    None => None,
                },
            },
            WebhookPayload::Other => PayloadView::Other,
        }
    }
}

/// Whether octocrab knows the event kind that a header names.
pub uninterp spec fn webhook_kind_known(kind: Seq<char>) -> bool;

/// Relies on the `Deserialize` impl of octocrab's `WebhookEventType`, applied to the
/// header text as a JSON string: a name it does not list falls to its `Unknown`
/// variant. The outcome depends on the text alone.
#[verifier::external_body]
fn kind_is_known(kind: &str) -> (r: bool)
    ensures
        r == webhook_kind_known(kind@),
{
    match serde_json::from_value::<WebhookEventType>(serde_json::Value::String(kind.to_string())) {
        Ok(WebhookEventType::Unknown(_)) => false,
        Ok(_) => true,
        Err(_) => false,
    }
}

/// What a webhook of the given kind with the given body decodes to, or `None` where
/// the kind or the body does not decode.
pub uninterp spec fn webhook_decoded(kind: Seq<char>, body: Seq<u8>) -> Option<PayloadView>;

/// The payload of a successful decoding.
pub open spec fn decoded_payload(r: Result<WebhookPayload, serde_json::Error>) -> Option<PayloadView> {
    match r {
        Ok(p) => Some(p@),
        Err(_) => None,
    }
}

/// Relies on octocrab's `WebhookEvent::try_from_header_and_body`: it reads the kind
/// from the header text and the payload of that kind from the body, and its outcome
/// depends on those two alone.
#[verifier::external_body]
fn decode_webhook(kind: &str, body: &[u8]) -> (r: Result<WebhookPayload, serde_json::Error>)
    ensures
        decoded_payload(r) == webhook_decoded(kind@, body@),
{
    match WebhookEvent::try_from_header_and_body(kind, body) {
        Ok(event) => match event.specific {
            WebhookEventPayload::Ping(p) => Ok(
                WebhookPayload::Ping { hook_id: p.hook_id.map(|h| h.0), zen: p.zen },
            ),
            _ => Ok(WebhookPayload::Other),
        },
        Err(e) => Err(e),
    }
}

/// How a webhook was handled.
pub enum WebhookOutcome {
    /// A ping, with the hook identifier and the free text it carried.
    Acknowledged { hook_id: Option<u64>, zen: Option<String> },
    /// A kind this handler does not act on; reported, and not a failure.
    Unhandled { kind: String },
}

/// The abstract value of a webhook outcome.
pub ghost enum OutcomeView {
    Acknowledged { hook_id: Option<u64>, zen: Option<Seq<char>> },
    Unhandled { kind: Seq<char> },
}

impl View for WebhookOutcome {
    type V = OutcomeView;

    open spec fn view(&self) -> OutcomeView {
        match self {
            WebhookOutcome::Acknowledged { hook_id, zen } => OutcomeView::Acknowledged {
                hook_id: *hook_id,
                zen: match zen {
                    Some(z) => Some(z@),
                    None => None,
                },
            },
            WebhookOutcome::Unhandled { kind } => OutcomeView::Unhandled { kind: kind@ },
        }
    }
}

/// Why a webhook submission was rejected.
#[derive(Clone, Copy, Debug, PartialEq, Eq, Structural)]
pub enum WebhookError {
    /// The request named no event kind.
    MissingTypeTag,
    /// The body does not decode as the kind it declares.
    UnparseableBody,
}

/// The outcome of a webhook of the given kind whose body decoded as given.
pub open spec fn dispatched(kind: Seq<char>, decoded: Option<PayloadView>) -> Result<OutcomeView, WebhookError> {
    match decoded {
        None => Err(WebhookError::UnparseableBody),
        Some(PayloadView::Ping { hook_id, zen }) => Ok(OutcomeView::Acknowledged { hook_id, zen }),
        Some(PayloadView::Other) => Ok(OutcomeView::Unhandled { kind }),
    }
}

/// The outcome of handling a webhook with the given kind header and body: a missing
/// kind is rejected, a kind octocrab does not know is reported unhandled whatever the
/// body, and a known kind is dispatched on its decoded body.
pub open spec fn webhook_handling(kind: Option<Seq<char>>, body: Seq<u8>) -> Result<OutcomeView, WebhookError> {
    match kind {
        None => Err(WebhookError::MissingTypeTag),
        Some(k) => if webhook_kind_known(k) {
            dispatched(k, webhook_decoded(k, body))
        } else {
            Ok(OutcomeView::Unhandled { kind: k })
        },
    }
}

/// The abstract value of a handling result.
pub open spec fn handling_view(r: Result<WebhookOutcome, WebhookError>) -> Result<OutcomeView, WebhookError> {
    match r {
        Ok(o) => Ok(o@),
        Err(e) => Err(e),
    }
}

/// Dispatches a decoded payload by its variant: a ping is acknowledged, any other
/// kind is reported as unhandled, and a body that did not decode is rejected.
pub fn dispatch_payload(kind: &str, decoded: Option<WebhookPayload>) -> (r: Result<WebhookOutcome, WebhookError>)
    ensures
        handling_view(r) == dispatched(
            kind@,
            match decoded {
                Some(p) => Some(p@),
                None => None,
            },
        ),
{
    match decoded {
        None => Err(WebhookError::UnparseableBody),
        Some(WebhookPayload::Ping { hook_id, zen }) => Ok(WebhookOutcome::Acknowledged { hook_id, zen }),
        Some(WebhookPayload::Other) => Ok(WebhookOutcome::Unhandled { kind: kind.to_string() }),
    }
}

/// Handles a webhook from its kind header and body. Without a kind the request is
/// rejected before the body is looked at; a kind octocrab does not know is reported
/// unhandled without decoding the body.
pub fn handle_webhook(kind: Option<&str>, body: &[u8]) -> (r: Result<WebhookOutcome, WebhookError>)
    ensures
        handling_view(r) == webhook_handling(
            match kind {
                Some(k) => Some(k@),
                None => None,
            },
            body@,
        ),
        kind is None ==> r == Err::<WebhookOutcome, WebhookError>(WebhookError::MissingTypeTag),
        kind matches Some(k) ==> (!webhook_kind_known(k@) ==> (r matches Ok(
            WebhookOutcome::Unhandled { kind: u },
        ) && u@ == k@)),
{
    match kind {
        None => Err(WebhookError::MissingTypeTag),
        Some(k) => {
            if !kind_is_known(k) {
                return Ok(WebhookOutcome::Unhandled { kind: k.to_string() });
            }
            let decoded = match decode_webhook(k, body) {
                Ok(p) => Some(p),
                Err(_) => None,
            };
            dispatch_payload(k, decoded)
        },
    }
}

/// The HTTP status that acknowledges a handling result: success for every handled
/// kind, known or not, and a client error for a rejected submission.
pub fn webhook_status(r: &Result<WebhookOutcome, WebhookError>) -> (s: u16)
    ensures
        r is Ok ==> s == 200,
        r is Err ==> s == 400,
{
    match r {
        Ok(_) => 200,
        Err(_) => 400,
    }
}

} // verus!
