//! Serves an in-process HTTP router from function invocations: an invocation event is
//! rebuilt as an HTTP request, and the router's response is turned back into the
//! response the invoking runtime expects. A webhook handler classifies submissions by
//! their event-kind header.
use vstd::prelude::*;

pub mod envelope;
pub mod headers;
pub mod method;
pub mod text;
pub mod translate;
pub mod webhook;

verus! {

/// The greeting served by the liveness route.
pub fn hello() -> (r: &'static str)
    ensures
        r@ == "Hello, world! It's me!"@,
{
    "Hello, world! It's me!"
}

} // verus!
