//! Folding an acknowledgement stream into one terminal envelope.
//!
//! During a bulk ingest the server reports progress with one status frame
//! per unit of work; the client owes its caller a single pass/fail verdict.
//! The aggregator starts optimistically, records each successful frame's
//! message (most recent one wins, for diagnostics), and stops at the first
//! failure frame, returning that frame's envelope as the terminal outcome.
//! A stream drained without failure synthesizes a success envelope carrying
//! the HTTP code of the initial response, with empty message and data.

use vstd::prelude::*;

use crate::chunks::views_of;
use crate::envelope::{Envelope, EnvelopeModel, Status};
use crate::error::Error;
use crate::frame::{
    decode_status_chunk, envelope_from_frame, envelope_of_frame, frame_success, status_frame_of,
};

verus! {

/// The terminal envelope synthesized when the stream ends without a
/// failure frame.
pub open spec fn synthesized_success(code: u16) -> EnvelopeModel<Seq<char>> {
    EnvelopeModel {
        status: Status::Success,
        code: code,
        message: Seq::empty(),
        data: Seq::empty(),
    }
}

/// The terminal outcome of an acknowledgement stream: the first failure
/// frame's envelope, a synthesized success if no frame fails, or `Err`
/// where the first consumed chunk that is not a well-formed envelope
/// aborts the operation.
pub open spec fn status_fold(chunks: Seq<Seq<u8>>, code: u16) -> Result<
    EnvelopeModel<Seq<char>>,
    (),
>
    decreases chunks.len(),
{
    if chunks.len() == 0 {
        Ok(synthesized_success(code))
    } else {
        match status_frame_of(chunks.first()) {
            Option::None => Err(()),
            Option::Some(f) => if frame_success(f) {
                status_fold(chunks.drop_first(), code)
            } else {
                Ok(envelope_of_frame(f))
            },
        }
    }
}

/// How many chunks the aggregator consumes before it stops: everything up
/// to and including the first failure or malformed chunk, or the whole
/// stream if every frame acknowledges success.
pub open spec fn frames_consumed(chunks: Seq<Seq<u8>>) -> nat
    decreases chunks.len(),
{
    if chunks.len() == 0 {
        0
    } else {
        match status_frame_of(chunks.first()) {
            Option::None => 1,
            Option::Some(f) => if frame_success(f) {
                1 + frames_consumed(chunks.drop_first())
            } else {
                1
            },
        }
    }
}

/// What the aggregator tells the caller after one chunk.
#[derive(Debug)]
pub enum StepVerdict {
    /// The frame acknowledged success; pull the next chunk.
    Continue,
    /// A failure frame arrived; this is the terminal envelope, and no
    /// further chunk may be read.
    Finished(Envelope<String>),
}

/// Folds status frames one chunk at a time, in arrival order. Holds the
/// HTTP code of the initial response and the most recent success message.
pub struct StatusAggregator {
    pub http_code: u16,
    pub last_message: String,
}

impl StatusAggregator {
    pub fn new(http_code: u16) -> (r: Self)
        ensures
            r.http_code == http_code,
            r.last_message@ == Seq::<char>::empty(),
    {
        StatusAggregator { http_code, last_message: String::new() }
    }

    /// Consumes one chunk. A malformed chunk is fatal; a failure frame ends
    /// the stream with its own envelope; a success frame only updates the
    /// recorded diagnostic message.
    pub fn on_chunk(&mut self, chunk: &Vec<u8>) -> (r: Result<StepVerdict, Error>)
        ensures
            final(self).http_code == old(self).http_code,
            match status_frame_of(chunk@) {
                Option::Some(f) => if frame_success(f) {
                    r == Ok::<StepVerdict, Error>(StepVerdict::Continue)
                        && final(self).last_message@ == f.message
                } else {
                    (r matches Ok(StepVerdict::Finished(env)) && env@ == envelope_of_frame(f))
                        && final(self).last_message == old(self).last_message
                },
                Option::None => r is Err && r->Err_0 is JsonError && final(self).last_message
                    == old(self).last_message,
            },
    {
        match decode_status_chunk(chunk) {
            Err(e) => Err(e),
            Ok(f) => {
                let success: String = "success".to_owned();
                if f.status == success {
                    self.last_message = f.message;
                    Ok(StepVerdict::Continue)
                } else {
                    Ok(StepVerdict::Finished(envelope_from_frame(f)))
                }
            },
        }
    }

    /// The terminal envelope for a stream drained without failure: success,
    /// the initial HTTP code, empty message and data.
    pub fn finish(self) -> (r: Envelope<String>)
        ensures
            r@ == synthesized_success(self.http_code),
    {
        let r = Envelope {
            status: Status::Success,
            code: self.http_code,
            message: String::new(),
            data: String::new(),
        };
        proof {
            assert(r@ =~= synthesized_success(self.http_code));
        }
        r
    }
}

/// Runs the aggregator over a whole stream of chunks, stopping at the
/// first failure or malformed chunk, and returns the terminal envelope.
pub fn aggregate_status_chunks(chunks: &Vec<Vec<u8>>, http_code: u16) -> (r: Result<
    Envelope<String>,
    Error,
>)
    ensures
        match r {
            Ok(env) => status_fold(views_of(chunks@), http_code) == Ok::<_, ()>(env@),
            Err(e) => status_fold(views_of(chunks@), http_code) is Err && e is JsonError,
        },
{
    let ghost cv = views_of(chunks@);
    let mut agg = StatusAggregator::new(http_code);
    let n = chunks.len();
    let mut i: usize = 0;
    proof {
        assert(cv.skip(0) =~= cv);
    }
    while i < n
        invariant
            i <= n,
            n == chunks.len(),
            cv == views_of(chunks@),
            agg.http_code == http_code,
            status_fold(cv, http_code) == status_fold(cv.skip(i as int), http_code),
        decreases n - i,
    {
        proof {
            assert(cv.skip(i as int).first() == chunks@[i as int]@);
            assert(cv.skip(i as int).drop_first() =~= cv.skip(i as int + 1));
        }
        match agg.on_chunk(&chunks[i]) {
            Err(e) => {
                return Err(e);
            },
            Ok(StepVerdict::Finished(env)) => {
                return Ok(env);
            },
            Ok(StepVerdict::Continue) => {
                i = i + 1;
            },
        }
    }
    proof {
        assert(cv.skip(n as int).len() == 0);
    }
    Ok(agg.finish())
}

/// First failure wins: after any run of successful acknowledgements, a
/// failure frame settles the terminal outcome as its own envelope, whatever
/// follows it, and exactly the frames before and including it are consumed.
pub proof fn lemma_first_failure_wins(
    pre: Seq<Seq<u8>>,
    fail: Seq<u8>,
    suf: Seq<Seq<u8>>,
    code: u16,
)
    requires
        forall|i: int|
            0 <= i < pre.len() ==> (#[trigger] status_frame_of(pre[i])) is Some && frame_success(
                status_frame_of(pre[i]).unwrap(),
            ),
        status_frame_of(fail) is Some,
        !frame_success(status_frame_of(fail).unwrap()),
    ensures
        status_fold(pre + seq![fail] + suf, code) == Ok::<_, ()>(
            envelope_of_frame(status_frame_of(fail).unwrap()),
        ),
        frames_consumed(pre + seq![fail] + suf) == pre.len() + 1,
    decreases pre.len(),
{
    let s = pre + seq![fail] + suf;
    if pre.len() == 0 {
        assert(s.first() == fail);
    } else {
        assert(s.first() == pre[0]);
        assert forall|i: int|
            0 <= i < pre.drop_first().len() implies (#[trigger] status_frame_of(
            pre.drop_first()[i],
        )) is Some && frame_success(status_frame_of(pre.drop_first()[i]).unwrap()) by {
            assert(pre.drop_first()[i] == pre[i + 1]);
        }
        lemma_first_failure_wins(pre.drop_first(), fail, suf, code);
        assert(s.drop_first() =~= pre.drop_first() + seq![fail] + suf);
    }
}

/// A stream of only successful acknowledgements (the empty stream included)
/// folds to the synthesized success envelope carrying the initial HTTP
/// code, and every chunk is consumed.
pub proof fn lemma_all_success_synthesizes(chunks: Seq<Seq<u8>>, code: u16)
    requires
        forall|i: int|
            0 <= i < chunks.len() ==> (#[trigger] status_frame_of(chunks[i])) is Some
                && frame_success(status_frame_of(chunks[i]).unwrap()),
    ensures
        status_fold(chunks, code) == Ok::<_, ()>(synthesized_success(code)),
        frames_consumed(chunks) == chunks.len(),
    decreases chunks.len(),
{
    if chunks.len() == 0 {
    } else {
        assert(status_frame_of(chunks.first()) is Some);
        assert forall|i: int|
            0 <= i < chunks.drop_first().len() implies (#[trigger] status_frame_of(
            chunks.drop_first()[i],
        )) is Some && frame_success(status_frame_of(chunks.drop_first()[i]).unwrap()) by {
            assert(chunks.drop_first()[i] == chunks[i + 1]);
        }
        lemma_all_success_synthesizes(chunks.drop_first(), code);
    }
}

} // verus!
