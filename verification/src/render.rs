use vstd::prelude::*;

use crate::codes::FAILED_CODE;
use crate::envelope::ApiResponse;
use crate::errors::CommonError;
use crate::wire::{opt_chars, wire_spec};

verus! {

/// What the observability sink receives, exactly once per rendered
/// system failure: the redacted message together with the raw cause
/// and the trace captured at the failure site. Emission itself is the
/// sink's business and must neither block nor fail rendering.
#[derive(Debug)]
pub struct DiagnosticRecord {
    pub message: String,
    pub cause: Option<String>,
    pub trace: Option<String>,
}

/// The envelope code a taxonomy value renders to: a business failure
/// keeps its registry code, a system failure is always the generic
/// failure sentinel.
pub open spec fn rendered_code(err: CommonError) -> i32 {
    match err {
        CommonError::Biz(b) => b.code,
        CommonError::Sys { .. } => FAILED_CODE,
    }
}

/// The wire message a taxonomy value renders to: the business message
/// verbatim, or the system failure's redacted summary. The cause and
/// the trace never appear here.
pub open spec fn rendered_message(err: CommonError) -> Seq<char> {
    match err {
        CommonError::Biz(b) => b.message@,
        CommonError::Sys { message, .. } => message@,
    }
}

/// The sole conversion from a taxonomy value to wire data. Total: it
/// never fails. It returns the envelope together with the diagnostic
/// record owed to the observability sink: none for a business failure
/// (expected failures are not noise), exactly one for a system failure.
/// The record, not the envelope, carries the cause and the trace.
pub fn render(err: CommonError) -> (r: (ApiResponse<()>, Option<DiagnosticRecord>))
    ensures
        r.0.code == rendered_code(err),
        r.0.data is None,
        r.0.message matches Some(m) && m@ == rendered_message(err),
        err.well_formed() ==> r.0.well_formed(),
        err is Biz ==> r.1 is None,
        err matches CommonError::Sys { message, cause, trace } ==> (r.1 matches Some(rec)
            && rec.message == message && rec.cause == cause && rec.trace == trace),
{
    match err {
        CommonError::Biz(b) => {
            (ApiResponse::failed_with_code(b.code, b.message), None)
        },
        CommonError::Sys { message, cause, trace } => {
            let wire_message = message.clone();
            let record = DiagnosticRecord { message, cause, trace };
            (ApiResponse::failed(wire_message), Some(record))
        },
    }
}

/// The wire form of a failure envelope, whose erased payload is absent.
pub open spec fn failure_wire(env: ApiResponse<()>) -> Seq<u8> {
    wire_spec(env.code, None, opt_chars(env.message))
}

/// Law: rendering is a pure function of the taxonomy value. Any two
/// envelopes that satisfy the rendering contract for the same value are
/// byte-identical once they are put on the wire.
pub proof fn lemma_render_byte_identical(err: CommonError, a: ApiResponse<()>, b: ApiResponse<()>)
    requires
        a.code == rendered_code(err),
        a.data is None,
        a.message matches Some(ma) && ma@ == rendered_message(err),
        b.code == rendered_code(err),
        b.data is None,
        b.message matches Some(mb) && mb@ == rendered_message(err),
    ensures
        failure_wire(a) == failure_wire(b),
{
    assert(opt_chars(a.message) == opt_chars(b.message));
}

} // verus!
