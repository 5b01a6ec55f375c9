//! The wire-level status/result wrapper exchanged with the remote service.

use vstd::prelude::*;

verus! {

/// Logical verdict carried by an envelope. The server reports `"success"`
/// or `"failed"` as a string on the wire; the client maps any string other
/// than `"success"` to `Failed`.
#[derive(Clone, Copy, Debug, PartialEq, Eq, Structural)]
pub enum Status {
    Success,
    Failed,
}

/// One envelope as the caller sees it: the overall verdict, the HTTP code
/// of the exchange, a free-form diagnostic message, and a payload whose
/// type depends on the operation. Immutable once constructed; the client
/// only ever replaces an envelope, never mutates one.
#[derive(Clone, Debug)]
pub struct Envelope<T> {
    pub status: Status,
    pub code: u16,
    pub message: String,
    pub data: T,
}

/// Mathematical image of an `Envelope`: the same fields over sequences.
#[verifier::ext_equal]
pub struct EnvelopeModel<D> {
    pub status: Status,
    pub code: u16,
    pub message: Seq<char>,
    pub data: D,
}

impl<T: View> View for Envelope<T> {
    type V = EnvelopeModel<T::V>;

    open spec fn view(&self) -> EnvelopeModel<T::V> {
        EnvelopeModel {
            status: self.status,
            code: self.code,
            message: self.message@,
            data: self.data@,
        }
    }
}

impl<T> Envelope<T> {
    pub fn new(status: Status, code: u16, message: String, data: T) -> (r: Self)
        ensures
            r.status == status,
            r.code == code,
            r.message == message,
            r.data == data,
    {
        Envelope { status, code, message, data }
    }

    /// Folds the wire verdict string into a `Status` and wraps a payload of
    /// any type. The server reports the verdict as a string; only the exact
    /// word `"success"` counts as success.
    pub fn with_verdict(status: &String, code: u16, message: String, data: T) -> (r: Self)
        ensures
            r.status == (if status@ == "success"@ {
                Status::Success
            } else {
                Status::Failed
            }),
            r.code == code,
            r.message == message,
            r.data == data,
    {
        let success: String = "success".to_owned();
        let s = if *status == success {
            Status::Success
        } else {
            Status::Failed
        };
        Envelope { status: s, code, message, data }
    }

    /// True exactly when the envelope reports logical success.
    pub fn is_success(&self) -> (r: bool)
        ensures
            r == (self.status == Status::Success),
    {
        match self.status {
            Status::Success => true,
            Status::Failed => false,
        }
    }
}

} // verus!
