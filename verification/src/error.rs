//! Local error taxonomy of the client.
//!
//! Only two variants arise inside this crate's own logic: `JsonError`
//! (a chunk or body that is not a well-formed envelope; fatal, aborts
//! the remaining stream) and `RequestError` (a connection, timeout or
//! read failure at the HTTP layer, reported by the transport collaborator).
//! The other variants mirror failures of surrounding collaborators and are
//! constructed where those collaborators are driven. A well-formed envelope
//! that reports `Failed` is never an `Error`: it is returned as data.

use vstd::prelude::*;

verus! {

#[derive(Clone, Debug)]
pub enum Error {
    SqlError(String),
    JsonError(String),
    ParseError(String),
    IOError(String),
    RequestError(String),
    InvalidDateFormat(String),
    CustomError(String),
    MbinaryError(String),
}

impl Error {
    /// The diagnostic text carried by the error, whatever its variant.
    pub fn detail(&self) -> (r: &String)
        ensures
            r@ == self.spec_detail(),
    {
        match self {
            Error::SqlError(s) => s,
            Error::JsonError(s) => s,
            Error::ParseError(s) => s,
            Error::IOError(s) => s,
            Error::RequestError(s) => s,
            Error::InvalidDateFormat(s) => s,
            Error::CustomError(s) => s,
            Error::MbinaryError(s) => s,
        }
    }

    pub open spec fn spec_detail(&self) -> Seq<char> {
        match self {
            Error::SqlError(s) => s@,
            Error::JsonError(s) => s@,
            Error::ParseError(s) => s@,
            Error::IOError(s) => s@,
            Error::RequestError(s) => s@,
            Error::InvalidDateFormat(s) => s@,
            Error::CustomError(s) => s@,
            Error::MbinaryError(s) => s@,
        }
    }
}

} // verus!
