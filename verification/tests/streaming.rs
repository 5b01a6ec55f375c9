use midas_client::aggregate::{aggregate_status_chunks, StatusAggregator, StepVerdict};
use midas_client::classify::{classify_response, decode_envelope, ResponsePath};
use midas_client::envelope::Status;
use midas_client::error::Error;
use midas_client::sink::{collect_chunks, BufferSink, FileWritePlan};

fn ack(status: &str, code: u16, message: &str) -> Vec<u8> {
    format!(
        "{{\"status\":\"{}\",\"code\":{},\"message\":\"{}\",\"data\":\"\"}}",
        status, code, message
    )
    .into_bytes()
}

#[test]
fn non_ok_code_takes_immediate_path() {
    assert_eq!(classify_response(500), ResponsePath::Immediate);
    assert_eq!(classify_response(404), ResponsePath::Immediate);
    assert_eq!(classify_response(201), ResponsePath::Immediate);
    assert_eq!(classify_response(200), ResponsePath::Streamed);
}

#[test]
fn immediate_body_decodes_to_single_envelope() {
    let body = ack("failed", 500, "bad request");
    let env = decode_envelope(&body).unwrap();
    assert_eq!(env.status, Status::Failed);
    assert_eq!(env.code, 500);
    assert_eq!(env.message, "bad request");
    assert_eq!(env.data, "");
}

#[test]
fn immediate_body_keeps_success_verdict() {
    let body = ack("success", 200, "created with id 7");
    let env = decode_envelope(&body).unwrap();
    assert_eq!(env.status, Status::Success);
    assert_eq!(env.code, 200);
    assert_eq!(env.message, "created with id 7");
}

#[test]
fn malformed_body_is_decode_error() {
    let body = b"not an envelope".to_vec();
    let e = decode_envelope(&body).unwrap_err();
    assert!(matches!(e, Error::JsonError(_)));
}

#[test]
fn envelope_code_too_large_is_decode_error() {
    let body = b"{\"status\":\"success\",\"code\":70000,\"message\":\"x\",\"data\":\"\"}".to_vec();
    let e = decode_envelope(&body).unwrap_err();
    assert!(matches!(e, Error::JsonError(_)));
}

#[test]
fn unknown_verdict_string_is_failure() {
    let body = ack("pending", 200, "queued");
    let env = decode_envelope(&body).unwrap();
    assert_eq!(env.status, Status::Failed);
    assert_eq!(env.message, "queued");
}

#[test]
fn null_data_reads_as_empty() {
    let body = b"{\"status\":\"success\",\"code\":200,\"message\":\"m\",\"data\":null}".to_vec();
    let env = decode_envelope(&body).unwrap();
    assert_eq!(env.status, Status::Success);
    assert_eq!(env.data, "");
}

#[test]
fn upload_two_ack_chunks_settle_success() {
    let chunks = vec![ack("success", 200, "1/2"), ack("success", 200, "2/2")];
    let env = aggregate_status_chunks(&chunks, 200).unwrap();
    assert_eq!(env.status, Status::Success);
    assert_eq!(env.code, 200);
    assert_eq!(env.message, "");
    assert_eq!(env.data, "");
}

#[test]
fn upload_failure_frame_returned_verbatim() {
    let chunks = vec![ack("failed", 500, "duplicate key")];
    let env = aggregate_status_chunks(&chunks, 200).unwrap();
    assert_eq!(env.status, Status::Failed);
    assert_eq!(env.code, 500);
    assert_eq!(env.message, "duplicate key");
    assert_eq!(env.data, "");
}

#[test]
fn failure_frame_stops_consumption() {
    let mut agg = StatusAggregator::new(200);
    let first = agg.on_chunk(&ack("success", 200, "1/3")).unwrap();
    assert!(matches!(first, StepVerdict::Continue));
    assert_eq!(agg.last_message, "1/3");
    let second = agg.on_chunk(&ack("failed", 500, "duplicate key")).unwrap();
    match second {
        StepVerdict::Finished(env) => {
            assert_eq!(env.status, Status::Failed);
            assert_eq!(env.message, "duplicate key");
        }
        StepVerdict::Continue => panic!("failure frame must finish the stream"),
    }
}

#[test]
fn failure_wins_over_later_frames() {
    let chunks = vec![
        ack("success", 200, "1/4"),
        ack("success", 200, "2/4"),
        ack("failed", 409, "duplicate key"),
        ack("success", 200, "4/4"),
    ];
    let env = aggregate_status_chunks(&chunks, 200).unwrap();
    assert_eq!(env.status, Status::Failed);
    assert_eq!(env.code, 409);
    assert_eq!(env.message, "duplicate key");
}

#[test]
fn all_success_stream_synthesizes_terminal() {
    let chunks = vec![
        ack("success", 200, "1/3"),
        ack("success", 200, "2/3"),
        ack("success", 200, "3/3"),
    ];
    let env = aggregate_status_chunks(&chunks, 200).unwrap();
    assert_eq!(env.status, Status::Success);
    assert_eq!(env.code, 200);
    assert_eq!(env.message, "");
}

#[test]
fn last_success_message_wins() {
    let mut agg = StatusAggregator::new(200);
    agg.on_chunk(&ack("success", 200, "1/2")).unwrap();
    agg.on_chunk(&ack("success", 200, "2/2")).unwrap();
    assert_eq!(agg.last_message, "2/2");
}

#[test]
fn malformed_chunk_aborts_stream() {
    let chunks = vec![ack("success", 200, "1/2"), b"garbage".to_vec()];
    let e = aggregate_status_chunks(&chunks, 200).unwrap_err();
    assert!(matches!(e, Error::JsonError(_)));
}

#[test]
fn empty_stream_synthesizes_success_in_both_modes() {
    let no_chunks: Vec<Vec<u8>> = Vec::new();
    let env = aggregate_status_chunks(&no_chunks, 200).unwrap();
    assert_eq!(env.status, Status::Success);
    assert_eq!(env.code, 200);
    assert_eq!(env.data, "");

    let env = collect_chunks(&no_chunks, 200);
    assert_eq!(env.status, Status::Success);
    assert_eq!(env.code, 200);
    assert_eq!(env.data, Vec::<u8>::new());
}

#[test]
fn download_chunks_concatenate() {
    let chunks = vec![vec![0x01u8, 0x02], vec![], vec![0x03]];
    let env = collect_chunks(&chunks, 200);
    assert_eq!(env.status, Status::Success);
    assert_eq!(env.data, vec![0x01u8, 0x02, 0x03]);
}

#[test]
fn chunk_boundaries_are_invisible() {
    let one_way = vec![vec![0xAAu8], vec![0xBB, 0xCC, 0xDD], vec![0xEE]];
    let another = vec![vec![0xAAu8, 0xBB], vec![], vec![0xCC], vec![0xDD, 0xEE]];
    let a = collect_chunks(&one_way, 200);
    let b = collect_chunks(&another, 200);
    assert_eq!(a.data, b.data);
    assert_eq!(a.data, vec![0xAAu8, 0xBB, 0xCC, 0xDD, 0xEE]);
}

#[test]
fn file_and_buffer_sinks_agree() {
    let chunks = vec![vec![0x01u8, 0x02], vec![], vec![0x03, 0x04]];

    let mut buffer = BufferSink::new();
    for c in &chunks {
        buffer.push_chunk(c);
    }

    let mut plan = FileWritePlan::new();
    let mut file_bytes: Vec<u8> = Vec::new();
    for c in &chunks {
        let w = plan.next_write(c.clone());
        file_bytes.extend_from_slice(&w);
    }

    assert_eq!(file_bytes, buffer.data);
}

#[test]
fn transport_failure_keeps_partial_file() {
    // The transport was expected to deliver three chunks but fails after one.
    let delivered: Vec<Result<Vec<u8>, String>> =
        vec![Ok(vec![0xAAu8, 0xBB]), Err("connection reset".to_string())];

    let mut plan = FileWritePlan::new();
    let mut file_bytes: Vec<u8> = Vec::new();
    let mut outcome: Result<(), Error> = Ok(());
    for item in delivered {
        match item {
            Ok(chunk) => {
                let w = plan.next_write(chunk);
                file_bytes.extend_from_slice(&w);
            }
            Err(detail) => {
                outcome = Err(Error::RequestError(detail));
                break;
            }
        }
    }

    let e = outcome.unwrap_err();
    assert!(matches!(e, Error::RequestError(_)));
    // The received prefix stays on disk; nothing is rolled back.
    assert_eq!(file_bytes, vec![0xAAu8, 0xBB]);
}
