//! Response classification: the fast non-stream path versus the stream path.
//!
//! The initial HTTP status code alone decides the path. Anything but the
//! designated OK value means the body is a single envelope: it is fully
//! materialized and decoded, and the streaming decoder is never touched.
//! The OK value hands the body to the streaming decoder; it is not yet
//! proof of logical success, which is established only once the stream is
//! drained without a failure frame.

use vstd::prelude::*;

use crate::envelope::Envelope;
use crate::error::Error;
use crate::frame::{decode_status_chunk, envelope_from_frame, envelope_of_frame, status_frame_of};

verus! {

/// The HTTP status code that opens the streaming path.
pub const OK_CODE: u16 = 200;

/// The two ways a response body is consumed.
#[derive(Clone, Copy, Debug, PartialEq, Eq, Structural)]
pub enum ResponsePath {
    /// Materialize the whole body and decode it as one envelope.
    Immediate,
    /// Hand the body to the streaming decoder, chunk by chunk.
    Streamed,
}

/// Decides the path from the initial HTTP status code. No chunk is read
/// before this decision, and the `Immediate` path never reads one.
pub fn classify_response(http_code: u16) -> (r: ResponsePath)
    ensures
        r == ResponsePath::Streamed <==> http_code == OK_CODE,
{
    if http_code == OK_CODE {
        ResponsePath::Streamed
    } else {
        ResponsePath::Immediate
    }
}

/// Decodes a fully materialized body as a single envelope: the non-stream
/// path. Returns the decoded envelope even when it reports failure — a
/// well-formed `Failed` envelope is a legitimate business outcome, not an
/// error. Only a body that is not a well-formed envelope is a `JsonError`.
pub fn decode_envelope(body: &Vec<u8>) -> (r: Result<Envelope<String>, Error>)
    ensures
        match r {
            Ok(env) => status_frame_of(body@) is Some && env@ == envelope_of_frame(
                status_frame_of(body@).unwrap(),
            ),
            Err(e) => status_frame_of(body@) is None && e is JsonError,
        },
{
    match decode_status_chunk(body) {
        Ok(f) => Ok(envelope_from_frame(f)),
        Err(e) => Err(e),
    }
}

} // verus!
