use midas_client::envelope::{Envelope, Status};
use midas_client::error::Error;
use midas_client::params::RetrieveParams;
use midas_client::routes::{historical_url, instruments_url, service_url};

#[test]
fn envelope_holds_its_fields() {
    let env = Envelope::new(Status::Success, 200, "ok".to_string(), "payload".to_string());
    assert_eq!(env.status, Status::Success);
    assert_eq!(env.code, 200);
    assert_eq!(env.message, "ok");
    assert_eq!(env.data, "payload");
    assert!(env.is_success());

    let env = Envelope::new(Status::Failed, 500, "no".to_string(), ());
    assert!(!env.is_success());
}

#[test]
fn verdict_string_folds_into_status() {
    let env = Envelope::with_verdict(&"success".to_string(), 200, "ok".to_string(), 5u32);
    assert_eq!(env.status, Status::Success);
    assert_eq!(env.data, 5);

    let env = Envelope::with_verdict(&"failed".to_string(), 500, "no".to_string(), 0u32);
    assert_eq!(env.status, Status::Failed);

    // Anything but the exact word "success" counts as failure.
    let env = Envelope::with_verdict(&"Success".to_string(), 200, "".to_string(), ());
    assert_eq!(env.status, Status::Failed);
}

#[test]
fn historical_routes_join_base_and_endpoint() {
    let base = "http://localhost:8080".to_string();
    assert_eq!(
        historical_url(&base, "mbp/create/stream"),
        "http://localhost:8080/historical/mbp/create/stream"
    );
    assert_eq!(
        historical_url(&base, "mbp/get/stream"),
        "http://localhost:8080/historical/mbp/get/stream"
    );
}

#[test]
fn instrument_routes_join_base_and_endpoint() {
    let base = "http://localhost:8080".to_string();
    assert_eq!(
        instruments_url(&base, "create"),
        "http://localhost:8080/instruments/create"
    );
    assert_eq!(
        service_url(&base, "/market_data/mbp/get"),
        "http://localhost:8080/market_data/mbp/get"
    );
}

#[test]
fn retrieve_params_hold_the_query() {
    let params = RetrieveParams::new(
        vec!["AAPL9".to_string()],
        1704209103644092563,
        1704239109644092565,
        "mbp-1".to_string(),
    );
    assert_eq!(params.symbols, vec!["AAPL9".to_string()]);
    assert_eq!(params.start_ts, 1704209103644092563);
    assert_eq!(params.end_ts, 1704239109644092565);
    assert_eq!(params.schema, "mbp-1");
}

#[test]
fn error_detail_carries_the_text() {
    let e = Error::RequestError("connection timed out".to_string());
    assert_eq!(e.detail(), "connection timed out");
    let e = Error::JsonError("bad frame".to_string());
    assert_eq!(e.detail(), "bad frame");
}
