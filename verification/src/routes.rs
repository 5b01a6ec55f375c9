//! Construction of endpoint URLs from the configured base URL.

use vstd::prelude::*;
use vstd::string::StringExecFns;

verus! {

/// The URL of a historical market-data endpoint under the base URL.
pub fn historical_url(base: &String, endpoint: &str) -> (r: String)
    ensures
        r@ == base@ + "/historical/"@ + endpoint@,
{
    let mut r = base.clone();
    r.append("/historical/");
    r.append(endpoint);
    r
}

/// The URL of an instruments endpoint under the base URL.
pub fn instruments_url(base: &String, endpoint: &str) -> (r: String)
    ensures
        r@ == base@ + "/instruments/"@ + endpoint@,
{
    let mut r = base.clone();
    r.append("/instruments/");
    r.append(endpoint);
    r
}

/// The URL of an endpoint addressed by its full path under the base URL.
pub fn service_url(base: &String, endpoint: &str) -> (r: String)
    ensures
        r@ == base@ + endpoint@,
{
    let mut r = base.clone();
    r.append(endpoint);
    r
}

} // verus!
