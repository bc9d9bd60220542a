//! The Connection Handle and the Response Drain Guard.
//!
//! The engine's byte-level calls return a signed count: positive for bytes
//! moved, zero for end of stream, negative for an error. This module
//! classifies those results, tracks the per-connection Written Flag, and
//! decides what the drain guard writes when the connection is released: the
//! single most important rule of the adapter is that no connection is
//! released without a complete response having been written, so a connection
//! released with the flag still clear gets the synthesized failure response.

use vstd::prelude::*;

use crate::request::CivetRequest;
use crate::wire::failure_prefix;
use crate::wire::failure_wire;
use crate::wire::lemma_failure_starts_500;
use crate::wire::starts_with;

verus! {

/// What one byte-level read against the engine came to.
#[derive(Debug, Clone, Copy, PartialEq, Eq, Structural)]
pub enum ReadOutcome {
    /// The engine copied this many body bytes into the buffer.
    Data(u32),
    /// The end of the request body.
    End,
    /// The engine reported a read failure.
    Failure,
}

/// Classifies the engine's return of one read call: positive is a byte
/// count, zero the end of the body, negative a read failure — never a panic.
pub fn classify_read(n: i32) -> (r: ReadOutcome)
    ensures
        n > 0 ==> r == ReadOutcome::Data(n as u32),
        n == 0 ==> r == ReadOutcome::End,
        n < 0 ==> r == ReadOutcome::Failure,
{
    if n > 0 {
        ReadOutcome::Data(n as u32)
    } else if n == 0 {
        ReadOutcome::End
    } else {
        ReadOutcome::Failure
    }
}

/// What one byte-level write against the engine came to.
#[derive(Debug, Clone, Copy, PartialEq, Eq, Structural)]
pub enum WriteOutcome {
    /// The engine accepted this many bytes for transmission.
    Wrote(u32),
    /// The engine reported a write failure.
    Failure,
}

/// One request's connection: the structured request view and the Written
/// Flag, which is clear at construction and set by the first successful
/// write.
pub struct Connection {
    request: CivetRequest,
    written: bool,
}

impl Connection {
    /// Whether any response bytes have been written on this connection yet.
    pub closed spec fn written(&self) -> bool {
        self.written
    }

    /// The request view this connection carries.
    pub closed spec fn spec_request(&self) -> CivetRequest {
        self.request
    }

    /// The structured request the handler reads.
    pub fn request(&self) -> (r: &CivetRequest)
        ensures
            r == self.spec_request(),
    {
        &self.request
    }

    /// Wraps one request's view; no bytes are written yet.
    pub fn new(request: CivetRequest) -> (c: Connection)
        ensures
            c.spec_request() == request,
            !c.written(),
    {
        Connection { request, written: false }
    }

    /// Records the engine's return of one write call: a non-negative count
    /// means the engine accepted bytes and the Written Flag is set; a
    /// negative return is a write failure and leaves the flag as it was.
    pub fn record_write(&mut self, n: i32) -> (r: WriteOutcome)
        ensures
            n >= 0 ==> r == WriteOutcome::Wrote(n as u32) && final(self).written(),
            n < 0 ==> r == WriteOutcome::Failure && final(self).written() == old(self).written(),
            final(self).spec_request() == old(self).spec_request(),
    {
        if n >= 0 {
            self.written = true;
            WriteOutcome::Wrote(n as u32)
        } else {
            WriteOutcome::Failure
        }
    }

    /// Releases the connection — the drain guard's scope exit. Where the
    /// Written Flag is still clear (the handler finished without producing
    /// writable bytes), the synthesized failure response, which begins
    /// `HTTP/1.1 500`, is handed back to be written before the engine
    /// reclaims the handle; where bytes were already written, nothing more
    /// is.
    pub fn release(self) -> (r: Option<Vec<u8>>)
        ensures
            self.written() ==> r is None,
            !self.written() ==> (r matches Some(b) && b@ == failure_wire() && starts_with(
                b@,
                failure_prefix(),
            )),
    {
        if self.written {
            None
        } else {
            proof {
                lemma_failure_starts_500();
            }
            Some(crate::wire::default_failure_response())
        }
    }
}

} // verus!
