//! The Handler Invocation Boundary: the per-request decision of what reaches
//! the wire and what status the engine is told.
//!
//! The embedder runs the actual invocation: it builds the request view, calls
//! the application handler, and catches an abnormal termination before it
//! could cross back into the engine's call stack. What it observes is one of
//! the outcomes below; this module decides, for every outcome, the exact
//! bytes to transmit and the status code surfaced to the engine, so that
//! every request is answered with one complete response.

use vstd::prelude::*;

use crate::wire::failure_headers;
use crate::wire::failure_prefix;
use crate::wire::failure_wire;
use crate::wire::head_spec;
use crate::wire::lemma_failure_starts_500;
use crate::wire::lemma_status_line_determines_code;
use crate::wire::starts_with;
use crate::wire::status_of;
use crate::wire::wf_header_list;
use crate::wire::wf_header_name;
use crate::wire::wf_header_value;
use crate::wire::Response;
use crate::headers::records_view;

verus! {

/// How the application handler's invocation ended, as the embedder observed
/// it.
pub enum HandlerOutcome {
    /// The handler returned a structured response.
    Success(Response),
    /// The handler returned its failure value.
    Failure,
    /// The handler terminated abnormally; the embedder caught the unwind at
    /// the boundary, before it could reach the engine.
    Panicked,
}

/// How one whole request went at the boundary.
pub enum RequestOutcome {
    /// The engine supplied no request-info record for the handle; the
    /// handler was never called.
    MetadataUnavailable,
    /// The handler was invoked and came to the given outcome.
    Handled(HandlerOutcome),
}

/// The bytes the boundary has written for a handler outcome: the handler's
/// own response serialized, or the synthesized failure response.
pub open spec fn handler_wire_spec(o: HandlerOutcome) -> Seq<u8> {
    match o {
        HandlerOutcome::Success(resp) => resp.wire_spec(),
        HandlerOutcome::Failure => failure_wire(),
        HandlerOutcome::Panicked => failure_wire(),
    }
}

/// The bytes the boundary has written for one whole request.
pub open spec fn reply_wire_spec(o: RequestOutcome) -> Seq<u8> {
    match o {
        RequestOutcome::MetadataUnavailable => failure_wire(),
        RequestOutcome::Handled(h) => handler_wire_spec(h),
    }
}

/// Whether the outcome's response, if any, is well formed.
pub open spec fn outcome_wf(o: RequestOutcome) -> bool {
    o matches RequestOutcome::Handled(HandlerOutcome::Success(resp)) ==> resp.wf()
}

/// The status code the boundary surfaces to the engine: nonzero where the
/// request was carried to an ordinary end (the handler's response or the
/// synthesized failure response was produced in the ordinary course), zero
/// where the invocation itself broke down (no request metadata, or an
/// abnormal termination caught at the boundary). The engine reads it only to
/// decide whether the request was handled; it carries no HTTP meaning.
pub open spec fn engine_status_spec(o: RequestOutcome) -> i32 {
    match o {
        RequestOutcome::MetadataUnavailable => 0,
        RequestOutcome::Handled(HandlerOutcome::Panicked) => 0,
        RequestOutcome::Handled(_) => 1,
    }
}

/// The full per-request decision of the Invocation Boundary: for any outcome
/// — success, explicit failure, abnormal termination, or a request whose
/// metadata the engine could not supply — the exact wire bytes of the one
/// response, and the status code for the engine. An abnormal termination is
/// turned into ordinary values here; nothing of it propagates further.
pub fn invocation_reply(o: &RequestOutcome) -> (r: (Vec<u8>, i32))
    ensures
        r.0@ == reply_wire_spec(*o),
        r.1 == engine_status_spec(*o),
{
    match o {
        RequestOutcome::MetadataUnavailable => (crate::wire::default_failure_response(), 0),
        RequestOutcome::Handled(HandlerOutcome::Success(resp)) => (resp.wire_bytes(), 1),
        RequestOutcome::Handled(HandlerOutcome::Failure) => (
            crate::wire::default_failure_response(),
            1,
        ),
        RequestOutcome::Handled(HandlerOutcome::Panicked) => (
            crate::wire::default_failure_response(),
            0,
        ),
    }
}

/// One complete response and nothing else: a head — status line, well-formed
/// header lines, blank line — followed by body bytes.
pub open spec fn is_complete_response(b: Seq<u8>) -> bool {
    exists|code: u16, hs: Seq<(Seq<u8>, Seq<u8>)>, body: Seq<u8>|
        #![trigger head_spec(code, hs) + body]
        100 <= code <= 999 && wf_header_list(hs) && b == head_spec(code, hs) + body
}

/// The synthesized failure response is itself one complete response, with
/// status 500 and an empty body.
pub proof fn lemma_failure_wire_complete()
    ensures
        is_complete_response(failure_wire()),
{
    reveal_strlit("Content-Length");
    reveal_strlit("0");
    let hs = failure_headers();
    assert(wf_header_name(hs[0].0)) by {
        assert(hs[0].0.len() == 14);
    }
    assert(wf_header_value(hs[0].1));
    assert(wf_header_list(hs));
    assert(failure_wire() == head_spec(500, hs) + Seq::<u8>::empty()) by {
        assert(failure_wire() =~= head_spec(500, hs) + Seq::<u8>::empty());
    }
    assert(100 <= 500u16 <= 999);
}

/// The status code of the one response a request outcome is answered with:
/// the handler's own on success, 500 on every failure path.
pub open spec fn reply_status_spec(o: RequestOutcome) -> int {
    match o {
        RequestOutcome::Handled(HandlerOutcome::Success(resp)) => resp.status as int,
        _ => 500,
    }
}

/// Exactly-once response: for every request — whether the handler succeeded,
/// failed, terminated abnormally, or was never called for want of metadata —
/// the bytes the boundary hands to the write path are exactly one complete
/// response: one head followed by one body, nothing before, between or after;
/// and its status line carries exactly the outcome's status code.
pub proof fn lemma_exactly_once_response(o: RequestOutcome)
    requires
        outcome_wf(o),
    ensures
        is_complete_response(reply_wire_spec(o)),
        status_of(reply_wire_spec(o)) == reply_status_spec(o),
{
    match o {
        RequestOutcome::Handled(HandlerOutcome::Success(resp)) => {
            let code = resp.status;
            let hs = records_view(resp.headers@);
            let body = resp.body@;
            assert(reply_wire_spec(o) == head_spec(code, hs) + body);
            assert(100 <= code <= 999 && wf_header_list(hs));
            lemma_status_line_determines_code(code, hs, body);
        },
        _ => {
            lemma_failure_wire_complete();
            lemma_status_line_determines_code(500, failure_headers(), Seq::empty());
            assert(reply_wire_spec(o) =~= head_spec(500, failure_headers()) + Seq::<u8>::empty());
        },
    }
}

/// Every synthesized failure path — explicit failure, abnormal termination,
/// missing metadata — answers with bytes that begin `HTTP/1.1 500`.
pub proof fn lemma_failure_paths_begin_500(o: RequestOutcome)
    requires
        !(o matches RequestOutcome::Handled(HandlerOutcome::Success(_))),
    ensures
        starts_with(reply_wire_spec(o), failure_prefix()),
{
    lemma_failure_starts_500();
}

} // verus!
