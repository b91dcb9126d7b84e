use stellar_data::fetch::{
    fallback_on_status, extract_latest_sequence, process_rpc_response, process_store_payload,
    rpc_getledgers_body, rpc_simulate_body, FetchError,
};
use stellar_data::xdrio::parse_xdr;
use stellar_xdr::curr::{LedgerCloseMeta, Limits, WriteXdr};

#[test]
fn getledgers_body_is_exact() {
    assert_eq!(
        rpc_getledgers_body(12345),
        "{\"jsonrpc\":\"2.0\",\"id\":1,\"method\":\"getLedgers\",\"params\":{\"startLedger\":12345,\"pagination\":{\"limit\":1}}}"
    );
}

#[test]
fn simulate_body_escapes_its_payload() {
    assert_eq!(
        rpc_simulate_body("ab\"c\\d"),
        "{\"jsonrpc\":\"2.0\",\"id\":1,\"method\":\"simulateTransaction\",\"params\":{\"transaction\":\"ab\\\"c\\\\d\"}}"
    );
    assert_eq!(
        rpc_simulate_body("plain=="),
        "{\"jsonrpc\":\"2.0\",\"id\":1,\"method\":\"simulateTransaction\",\"params\":{\"transaction\":\"plain==\"}}"
    );
}

#[test]
fn only_a_missing_object_triggers_fallback() {
    assert!(fallback_on_status(404));
    assert!(!fallback_on_status(500));
    assert!(!fallback_on_status(200));
}

#[test]
fn fallback_and_store_paths_decode_to_the_same_batch() {
    // A record fabricated locally, as the fallback path would build it.
    let meta = LedgerCloseMeta::default();
    let meta_b64 = meta.to_xdr_base64(Limits::none()).unwrap();
    let body = format!(
        "{{\"jsonrpc\":\"2.0\",\"id\":1,\"result\":{{\"ledgers\":[{{\"sequence\":42,\"metadataXdr\":\"{}\"}}]}}}}",
        meta_b64
    );
    let fallback_bytes = process_rpc_response(42, &body).unwrap();
    let fallback_batch = parse_xdr(&fallback_bytes).unwrap();

    // The equivalent primary-store payload: the same batch, compressed.
    let compressed = zstd::encode_all(&fallback_bytes[..], 0).unwrap();
    let store_batch = process_store_payload(&compressed).unwrap();

    assert_eq!(store_batch, fallback_batch);
    assert_eq!(store_batch.start_sequence, 42);
    assert_eq!(store_batch.end_sequence, 42);
    assert_eq!(store_batch.ledger_close_metas.len(), 1);
}

#[test]
fn empty_ledger_list_means_not_found() {
    let body = "{\"jsonrpc\":\"2.0\",\"id\":1,\"result\":{\"ledgers\":[]}}";
    match process_rpc_response(7, body) {
        Err(FetchError::NotFound { sequence }) => assert_eq!(sequence, 7),
        other => panic!("expected NotFound, got {}", outcome_name(&other)),
    }
}

#[test]
fn rpc_error_is_surfaced() {
    let body = "{\"jsonrpc\":\"2.0\",\"id\":1,\"error\":{\"code\":-32600,\"message\":\"bad\"}}";
    match process_rpc_response(7, body) {
        Err(FetchError::Rpc { message }) => assert!(message.starts_with("RPC error: ")),
        other => panic!("expected Rpc, got {}", outcome_name(&other)),
    }
}

#[test]
fn malformed_response_is_a_decode_error() {
    match process_rpc_response(7, "not json at all") {
        Err(FetchError::Decode { message }) => {
            assert_eq!(message, "Failed to parse RPC response")
        }
        other => panic!("expected Decode, got {}", outcome_name(&other)),
    }
    let body = "{\"jsonrpc\":\"2.0\",\"id\":1,\"result\":{\"ledgers\":[{\"sequence\":1}]}}";
    match process_rpc_response(1, body) {
        Err(FetchError::Decode { message }) => {
            assert_eq!(message, "No metadataXdr in RPC response")
        }
        other => panic!("expected Decode, got {}", outcome_name(&other)),
    }
}

#[test]
fn corrupt_store_payload_is_rejected() {
    let garbage: Vec<u8> = vec![1, 2, 3, 4, 5];
    match process_store_payload(&garbage) {
        Err(FetchError::Decode { message }) => {
            assert_eq!(message, "Failed to decompress zstd data")
        }
        other => panic!("expected Decode, got {}", outcome_name(&other)),
    }
}

#[test]
fn latest_sequence_is_read_from_a_horizon_body() {
    let body = "{\"_embedded\":{\"records\":[{\"sequence\":58000123},{\"sequence\":58000122}]}}";
    assert_eq!(extract_latest_sequence(body), Some(58000123));
    assert_eq!(extract_latest_sequence("{}"), None);
    assert_eq!(extract_latest_sequence("{\"_embedded\":{\"records\":[]}}"), None);
    assert_eq!(extract_latest_sequence("nonsense"), None);
}

#[test]
fn fetch_error_messages_render() {
    let e = FetchError::NotFound { sequence: 99 };
    assert_eq!(e.message(), "Ledger 99 not found in RPC");
    let e = FetchError::Decode { message: "Failed to parse XDR data".to_string() };
    assert_eq!(e.message(), "Failed to parse XDR data");
}

fn outcome_name<T>(r: &Result<T, FetchError>) -> &'static str {
    match r {
        Ok(_) => "Ok",
        Err(FetchError::NotFound { .. }) => "NotFound",
        Err(FetchError::Transport { .. }) => "Transport",
        Err(FetchError::Rpc { .. }) => "Rpc",
        Err(FetchError::Decode { .. }) => "Decode",
    }
}
