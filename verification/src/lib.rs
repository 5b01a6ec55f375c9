//! Client-side streaming transfer logic for a remote market-data service.
//!
//! The remote service answers most requests with a single JSON envelope,
//! but the bulk endpoints answer with a chunked body: a stream of status
//! envelopes (upload acknowledgements) or of raw payload bytes (downloads).
//! This crate holds the verified core of that protocol: classifying the
//! initial response, decoding each chunk, folding many status frames into
//! one terminal envelope, and accumulating payload bytes in arrival order.
//! The HTTP exchange itself is an external collaborator; the functions here
//! take the status code and the chunks as plain values.

pub mod aggregate;
pub mod chunks;
pub mod classify;
pub mod envelope;
pub mod error;
pub mod frame;
pub mod params;
pub mod routes;
pub mod sink;
