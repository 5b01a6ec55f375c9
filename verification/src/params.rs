//! Query parameters of a records retrieval.

use vstd::prelude::*;

verus! {

/// What a caller asks the historical endpoints for: the symbols wanted,
/// the time range as nanosecond timestamps, and the record schema. Sent
/// to the service as the request body of a retrieval; carried here as
/// plain values, the transport serializes it.
#[derive(Clone, Debug)]
pub struct RetrieveParams {
    pub symbols: Vec<String>,
    pub start_ts: i64,
    pub end_ts: i64,
    pub schema: String,
}

impl RetrieveParams {
    pub fn new(symbols: Vec<String>, start_ts: i64, end_ts: i64, schema: String) -> (r: Self)
        ensures
            r.symbols == symbols,
            r.start_ts == start_ts,
            r.end_ts == end_ts,
            r.schema == schema,
    {
        RetrieveParams { symbols, start_ts, end_ts, schema }
    }
}

} // verus!
