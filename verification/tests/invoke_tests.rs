use stellar_data::invoke::{
    build_balance_envelope, build_price_query, combine_i128, combine_u128, get_oracle_for_asset,
    interpret_balance_response, interpret_price_response, BalanceOutcome, InvokeError,
    PriceOutcome, SimFailure,
};
use stellar_xdr::curr::{
    HostFunction, Int128Parts, Limits, OperationBody, ReadXdr, ScMap, ScMapEntry, ScSymbol, ScVal,
    TransactionEnvelope, WriteXdr,
};

const ACCOUNT: &str = "GB67AEDGTIDPDMJEX7KYVAUJAS7EV6ITRGZM3GBW2RLT5DBPDYHVSVCR";
const TOKEN: &str = "CAS3J7GYLGXMF6TDJBBYYSE3HQ6BBSMLNUQ34T6TZMYMW2EVH34XOWMA";
const STELLAR_ORACLE: &str = "CALI2BYU2JE6WVRUFYTS6MSBNEHGJ35P4AVCZYF3B6QOE3QKOB2PLE6M";
const CRYPTO_ORACLE: &str = "CAFJZQWSED6YAWZU3GWRTOCNPPCGBN32L7QV43XX5LZLFTK6JLN34DLN";
const FIAT_ORACLE: &str = "CBKGPWGKSKZF52CFHMTRR23TBWTPMRDIYZ4O2P5VS65BMHYH4DXMCJZC";

#[test]
fn crypto_symbols_route_to_the_crypto_oracle() {
    assert_eq!(get_oracle_for_asset("btc"), CRYPTO_ORACLE);
    assert_eq!(get_oracle_for_asset("BTC"), CRYPTO_ORACLE);
    assert_eq!(get_oracle_for_asset("xlm"), CRYPTO_ORACLE);
}

#[test]
fn fiat_symbols_route_to_the_fiat_oracle() {
    assert_eq!(get_oracle_for_asset("eur"), FIAT_ORACLE);
    assert_eq!(get_oracle_for_asset("XAU"), FIAT_ORACLE);
}

#[test]
fn unknown_symbols_route_to_the_default_oracle() {
    assert_eq!(get_oracle_for_asset("doge"), STELLAR_ORACLE);
    assert_eq!(get_oracle_for_asset(""), STELLAR_ORACLE);
}

#[test]
fn price_query_routes_by_asset_kind() {
    let q = build_price_query("btc").unwrap();
    assert_eq!(q.oracle_contract, CRYPTO_ORACLE);
    assert!(!q.is_stellar_asset);

    let q = build_price_query("eur").unwrap();
    assert_eq!(q.oracle_contract, FIAT_ORACLE);

    let q = build_price_query(TOKEN).unwrap();
    assert_eq!(q.oracle_contract, STELLAR_ORACLE);
    assert!(q.is_stellar_asset);
}

#[test]
fn price_query_rejects_bad_inputs() {
    // Shaped like a contract address but not a valid strkey.
    let bad_contract = "C0000000000000000000000000000000000000000000000000000000";
    assert_eq!(bad_contract.len(), 56);
    assert_eq!(build_price_query(bad_contract).unwrap_err(), InvokeError::InvalidContract);

    // A symbol beyond the 32-byte symbol limit.
    let long_symbol = "averyveryverylongassetsymbolbeyondthelimit";
    assert_eq!(build_price_query(long_symbol).unwrap_err(), InvokeError::SymbolTooLong);
}

#[test]
fn balance_envelope_rejects_bad_addresses_before_any_call() {
    assert_eq!(
        build_balance_envelope("not-an-address", TOKEN).unwrap_err(),
        InvokeError::InvalidAddress
    );
    assert_eq!(
        build_balance_envelope(TOKEN, TOKEN).unwrap_err(),
        InvokeError::InvalidAddress
    );
    assert_eq!(
        build_balance_envelope(ACCOUNT, "nope").unwrap_err(),
        InvokeError::InvalidContract
    );
    assert_eq!(
        build_balance_envelope(ACCOUNT, ACCOUNT).unwrap_err(),
        InvokeError::InvalidContract
    );
}

#[test]
fn balance_envelope_carries_the_balance_call() {
    let b64 = build_balance_envelope(ACCOUNT, TOKEN).unwrap();
    let envelope = TransactionEnvelope::from_xdr_base64(&b64, Limits::none()).unwrap();
    let TransactionEnvelope::Tx(v1) = envelope else {
        panic!("expected a current-shape envelope");
    };
    assert_eq!(v1.tx.operations.len(), 1);
    let OperationBody::InvokeHostFunction(ref op) = v1.tx.operations.as_vec()[0].body else {
        panic!("expected a host-function invocation");
    };
    let HostFunction::InvokeContract(ref args) = op.host_function else {
        panic!("expected a contract invocation");
    };
    assert_eq!(args.function_name.to_string(), "balance");
    assert_eq!(args.args.len(), 1);
    assert!(op.auth.is_empty());
}

#[test]
fn combine_joins_the_halves_exactly() {
    assert_eq!(combine_i128(0, 1234567), 1234567i128);
    assert_eq!(combine_i128(1, 5), (1i128 << 64) + 5);
    assert_eq!(combine_i128(-1, 0), -(1i128 << 64));
    assert_eq!(combine_u128(2, 3), (2u128 << 64) + 3);
}

fn sim_body_with_xdr(v: &ScVal) -> String {
    let b64 = v.to_xdr_base64(Limits::none()).unwrap();
    format!(
        "{{\"jsonrpc\":\"2.0\",\"id\":1,\"result\":{{\"results\":[{{\"xdr\":\"{}\"}}]}}}}",
        b64
    )
}

#[test]
fn balance_result_decodes_a_signed_amount() {
    let v = ScVal::I128(Int128Parts { hi: 0, lo: 31415926 });
    match interpret_balance_response(&sim_body_with_xdr(&v)).unwrap() {
        BalanceOutcome::AmountSigned { raw } => assert_eq!(raw, 31415926i128),
        _ => panic!("expected a signed amount"),
    }
}

#[test]
fn balance_result_passes_other_shapes_through() {
    let v = ScVal::U32(5);
    match interpret_balance_response(&sim_body_with_xdr(&v)).unwrap() {
        BalanceOutcome::NonNumeric { rendered } => assert!(rendered.contains("U32")),
        _ => panic!("expected a non-numeric pass-through"),
    }
}

#[test]
fn balance_result_softens_undecodable_payloads() {
    let body =
        "{\"jsonrpc\":\"2.0\",\"id\":1,\"result\":{\"results\":[{\"xdr\":\"!!notxdr!!\"}]}}";
    match interpret_balance_response(body).unwrap() {
        BalanceOutcome::Undecodable { raw_xdr, .. } => assert_eq!(raw_xdr, "!!notxdr!!"),
        _ => panic!("expected a diagnostic outcome"),
    }
}

#[test]
fn balance_transport_failures_are_errors() {
    assert_eq!(
        interpret_balance_response("not json").unwrap_err(),
        SimFailure::ParseResponse
    );
    assert_eq!(
        interpret_balance_response("{\"error\":{\"code\":1}}").unwrap_err(),
        SimFailure::RpcError
    );
    assert_eq!(
        interpret_balance_response("{\"jsonrpc\":\"2.0\"}").unwrap_err(),
        SimFailure::NoResult
    );
}

fn symbol(s: &str) -> ScVal {
    ScVal::Symbol(ScSymbol(s.as_bytes().to_vec().try_into().unwrap()))
}

#[test]
fn price_result_decodes_price_and_timestamp() {
    let entries = vec![
        ScMapEntry { key: symbol("price"), val: ScVal::I128(Int128Parts { hi: 0, lo: 777 }) },
        ScMapEntry { key: symbol("timestamp"), val: ScVal::U64(1700000000) },
    ];
    let v = ScVal::Map(Some(ScMap(entries.try_into().unwrap())));
    match interpret_price_response(&sim_body_with_xdr(&v)).unwrap() {
        PriceOutcome::Price { raw, timestamp } => {
            assert_eq!(raw, 777i128);
            assert_eq!(timestamp, 1700000000);
        }
        _ => panic!("expected a price"),
    }
}

#[test]
fn price_result_without_both_fields_is_no_result() {
    let entries = vec![ScMapEntry { key: symbol("timestamp"), val: ScVal::U64(1) }];
    let v = ScVal::Map(Some(ScMap(entries.try_into().unwrap())));
    match interpret_price_response(&sim_body_with_xdr(&v)).unwrap() {
        PriceOutcome::NoResultXdr => {}
        _ => panic!("expected the no-result outcome"),
    }
}

#[test]
fn price_result_of_another_shape_is_unexpected() {
    let v = ScVal::U32(9);
    match interpret_price_response(&sim_body_with_xdr(&v)).unwrap() {
        PriceOutcome::UnexpectedShape { rendered } => assert!(rendered.contains("U32")),
        _ => panic!("expected the unexpected-shape outcome"),
    }
}

#[test]
fn price_execution_errors_degrade_to_diagnostics() {
    let body = "{\"jsonrpc\":\"2.0\",\"id\":1,\"result\":{\"error\":\"host failure\"}}";
    match interpret_price_response(body).unwrap() {
        PriceOutcome::ExecutionError { contract_error } => {
            assert!(contract_error.contains("host failure"))
        }
        _ => panic!("expected an execution-error outcome"),
    }
}

#[test]
fn invoke_error_messages_render() {
    assert_eq!(InvokeError::InvalidAddress.message(), "Invalid Stellar address format");
    assert_eq!(InvokeError::InvalidContract.message(), "Invalid contract address format");
    assert_eq!(InvokeError::SymbolTooLong.message(), "Asset symbol too long");
}

#[test]
fn duplicate_price_entries_let_the_last_one_win() {
    let entries = vec![
        ScMapEntry { key: symbol("price"), val: ScVal::I128(Int128Parts { hi: 0, lo: 1 }) },
        ScMapEntry { key: symbol("price"), val: ScVal::I128(Int128Parts { hi: 0, lo: 2 }) },
        ScMapEntry { key: symbol("timestamp"), val: ScVal::U64(10) },
    ];
    let v = ScVal::Map(Some(ScMap(entries.try_into().unwrap())));
    match interpret_price_response(&sim_body_with_xdr(&v)).unwrap() {
        PriceOutcome::Price { raw, timestamp } => {
            assert_eq!(raw, 2i128);
            assert_eq!(timestamp, 10);
        }
        _ => panic!("expected a price"),
    }
}

fn decode_invocation(b64: &str) -> stellar_xdr::curr::InvokeContractArgs {
    let envelope = TransactionEnvelope::from_xdr_base64(b64, Limits::none()).unwrap();
    let TransactionEnvelope::Tx(v1) = envelope else {
        panic!("expected a current-shape envelope");
    };
    assert_eq!(v1.tx.fee, 100);
    assert_eq!(v1.tx.seq_num.0, 0);
    assert!(v1.signatures.is_empty());
    let OperationBody::InvokeHostFunction(op) = v1.tx.operations.as_vec()[0].body.clone() else {
        panic!("expected a host-function invocation");
    };
    assert!(op.auth.is_empty());
    let HostFunction::InvokeContract(args) = op.host_function else {
        panic!("expected a contract invocation");
    };
    args
}

#[test]
fn price_envelope_carries_the_tagged_symbol_argument() {
    let q = build_price_query("btc").unwrap();
    let args = decode_invocation(&q.envelope_b64);
    assert_eq!(args.function_name.to_string(), "lastprice");
    let ScVal::Vec(Some(pair)) = &args.args.as_vec()[0] else {
        panic!("expected a tagged pair");
    };
    assert_eq!(pair.len(), 2);
    assert_eq!(pair.as_vec()[0], symbol("Other"));
    assert_eq!(pair.as_vec()[1], symbol("BTC"));
}

#[test]
fn price_envelope_carries_the_tagged_address_argument() {
    let q = build_price_query(TOKEN).unwrap();
    let args = decode_invocation(&q.envelope_b64);
    assert_eq!(args.function_name.to_string(), "lastprice");
    let ScVal::Vec(Some(pair)) = &args.args.as_vec()[0] else {
        panic!("expected a tagged pair");
    };
    assert_eq!(pair.len(), 2);
    assert_eq!(pair.as_vec()[0], symbol("Stellar"));
    assert!(matches!(
        pair.as_vec()[1],
        ScVal::Address(stellar_xdr::curr::ScAddress::Contract(_))
    ));
}
