//! Decoding of one streamed chunk into a status frame.
//!
//! In acknowledgement streams every chunk is one complete JSON envelope
//! `{"status": <string>, "code": <int>, "message": <string>, "data": <string|null>}`
//! (the server never splits a frame across chunk boundaries). Parsing is
//! delegated to `serde_json`; what it yields for given bytes is named by
//! the uninterpreted function `status_frame_of`, and everything the client
//! decides about a frame is proved over that name.

use vstd::prelude::*;

use crate::envelope::{Envelope, EnvelopeModel, Status};
use crate::error::Error;

verus! {

/// One decoded status frame, exactly as it stood on the wire: the verdict
/// is still the raw string, not yet folded into a `Status`.
#[derive(Clone, Debug)]
pub struct StatusFrame {
    pub status: String,
    pub code: u16,
    pub message: String,
    pub data: String,
}

/// Mathematical image of a `StatusFrame`.
#[verifier::ext_equal]
pub struct FrameModel {
    pub status: Seq<char>,
    pub code: u16,
    pub message: Seq<char>,
    pub data: Seq<char>,
}

impl View for StatusFrame {
    type V = FrameModel;

    open spec fn view(&self) -> FrameModel {
        FrameModel {
            status: self.status@,
            code: self.code,
            message: self.message@,
            data: self.data@,
        }
    }
}

/// The status frame that the given bytes decode to, or `None` where they
/// are not a well-formed envelope. A function of the bytes alone.
pub uninterp spec fn status_frame_of(bytes: Seq<u8>) -> Option<FrameModel>;

/// Relies on `serde_json::from_slice` to parse the chunk as a JSON value,
/// and on `serde_json::Value::{get, as_str, as_u64}` to take the envelope's
/// four fields out of it; the result depends on the bytes alone. A `null`
/// `data` field stands for an absent payload and is read as the empty string.
#[verifier::external_body]
fn parse_status_frame(bytes: &Vec<u8>) -> (r: Option<StatusFrame>)
    ensures
        match r {
            Option::Some(f) => status_frame_of(bytes@) == Some(f@),
            Option::None => status_frame_of(bytes@) is None,
        },
{
    let v = serde_json::from_slice::<serde_json::Value>(bytes).ok()?;
    let status = v.get("status")?.as_str()?.to_owned();
    let code = u16::try_from(v.get("code")?.as_u64()?).ok()?;
    let message = v.get("message")?.as_str()?.to_owned();
    let data_field = v.get("data")?;
    let data = if data_field.is_null() {
        String::new()
    } else {
        data_field.as_str()?.to_owned()
    };
    Some(StatusFrame { status, code, message, data })
}

/// A frame acknowledges success exactly when its verdict string is `"success"`.
pub open spec fn frame_success(f: FrameModel) -> bool {
    f.status == "success"@
}

/// The envelope a caller receives for a single frame: the verdict string is
/// folded into a `Status`, the other fields pass through unchanged.
pub open spec fn envelope_of_frame(f: FrameModel) -> EnvelopeModel<Seq<char>> {
    EnvelopeModel {
        status: if frame_success(f) {
            Status::Success
        } else {
            Status::Failed
        },
        code: f.code,
        message: f.message,
        data: f.data,
    }
}

/// Turns one decoded frame into the envelope the caller receives.
pub fn envelope_from_frame(f: StatusFrame) -> (r: Envelope<String>)
    ensures
        r@ == envelope_of_frame(f@),
{
    let StatusFrame { status, code, message, data } = f;
    let r = Envelope::with_verdict(&status, code, message, data);
    proof {
        assert(r@ =~= envelope_of_frame(f@));
    }
    r
}

/// Decodes one chunk of an acknowledgement stream. A chunk that is not a
/// well-formed envelope is a fatal local error, not a skippable event.
pub fn decode_status_chunk(chunk: &Vec<u8>) -> (r: Result<StatusFrame, Error>)
    ensures
        match r {
            Ok(f) => status_frame_of(chunk@) == Some(f@),
            Err(e) => status_frame_of(chunk@) is None && e is JsonError,
        },
{
    match parse_status_frame(chunk) {
        Option::Some(f) => Ok(f),
        Option::None => Err(Error::JsonError("chunk is not a well-formed envelope".to_owned())),
    }
}

} // verus!
