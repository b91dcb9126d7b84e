use stellar_data::filters::{
    filter_batch, filter_by_address, filter_by_contract, filter_by_function,
    transaction_calls_function, transaction_involves_contract,
};
use stellar_data::model::{
    DecodedBatch, LedgerRecord, MatchPredicate, OpBody, TxEnvelope, TxOp, TxRef,
};

const TARGET: &str = "GB67AEDGTIDPDMJEX7KYVAUJAS7EV6ITRGZM3GBW2RLT5DBPDYHVSVCR";
const OTHER: &str = "GALPCCZN4YXA3YMJHKL6CVIECKPLJJCTVMSNYWBTKJW4K5HQLYLDMZTB";
const CONTRACT: &str = "CDLZFC3SYJYDZT7K67VZ75HPJVIEUVNIXF47ZG2FB2RMQQVU2HHGCYSC";

fn payment_tx(source: &str, destination: &str) -> TxEnvelope {
    TxEnvelope::Tx {
        source_account: source.to_string(),
        operations: vec![TxOp {
            source_account: None,
            body: OpBody::Payment { destination: destination.to_string() },
        }],
    }
}

fn invoke_tx(host_fn_render: &str) -> TxEnvelope {
    TxEnvelope::Tx {
        source_account: OTHER.to_string(),
        operations: vec![TxOp {
            source_account: None,
            body: OpBody::InvokeHostFunction {
                auth_renders: vec![],
                host_fn_render: host_fn_render.to_string(),
            },
        }],
    }
}

#[test]
fn payment_destination_is_matched() {
    let batch = DecodedBatch {
        start_sequence: 7,
        end_sequence: 7,
        records: vec![LedgerRecord::V0 { txs: vec![payment_tx(OTHER, TARGET)] }],
    };
    let refs = filter_by_address(&batch, TARGET);
    assert_eq!(refs, vec![TxRef { record: 0, item: 0 }]);
}

#[test]
fn unrelated_transaction_is_not_matched() {
    let batch = DecodedBatch {
        start_sequence: 7,
        end_sequence: 7,
        records: vec![LedgerRecord::V0 { txs: vec![payment_tx(OTHER, OTHER)] }],
    };
    let refs = filter_by_address(&batch, TARGET);
    assert!(refs.is_empty());
}

#[test]
fn fee_bump_fee_source_is_matched() {
    let env = TxEnvelope::TxFeeBump {
        fee_source: TARGET.to_string(),
        inner_source_account: OTHER.to_string(),
        inner_operations: vec![],
    };
    let batch = DecodedBatch {
        start_sequence: 1,
        end_sequence: 1,
        records: vec![LedgerRecord::V0 { txs: vec![env] }],
    };
    let refs = filter_by_address(&batch, TARGET);
    assert_eq!(refs, vec![TxRef { record: 0, item: 0 }]);
}

#[test]
fn current_schema_records_pass_through_unfiltered() {
    let batch = DecodedBatch {
        start_sequence: 5,
        end_sequence: 6,
        records: vec![
            LedgerRecord::V0 { txs: vec![payment_tx(OTHER, OTHER), payment_tx(OTHER, TARGET)] },
            LedgerRecord::V1 { tx_count: 2 },
            LedgerRecord::V2 { tx_count: 1 },
        ],
    };
    let refs = filter_by_address(&batch, TARGET);
    assert_eq!(
        refs,
        vec![
            TxRef { record: 0, item: 1 },
            TxRef { record: 1, item: 0 },
            TxRef { record: 1, item: 1 },
            TxRef { record: 2, item: 0 },
        ]
    );
}

#[test]
fn contract_match_is_substring_over_renderings() {
    let render = format!(
        "InvokeContract(InvokeContractArgs {{ contract_address: Contract({}), \
         function_name: Symbol(StringM(transfer)), args: [] }})",
        CONTRACT
    );
    let env = invoke_tx(&render);
    assert!(transaction_involves_contract(&env, CONTRACT));
    assert!(!transaction_involves_contract(&env, TARGET));

    let batch = DecodedBatch {
        start_sequence: 1,
        end_sequence: 1,
        records: vec![LedgerRecord::V0 { txs: vec![invoke_tx(&render)] }],
    };
    assert_eq!(filter_by_contract(&batch, CONTRACT), vec![TxRef { record: 0, item: 0 }]);
    assert!(filter_by_contract(&batch, TARGET).is_empty());
}

#[test]
fn function_match_is_case_sensitive() {
    let render = "InvokeContract(InvokeContractArgs { function_name: \
                  Symbol(StringM(transfer)), args: [] })";
    let env = invoke_tx(render);
    assert!(transaction_calls_function(&env, "transfer"));
    assert!(!transaction_calls_function(&env, "Transfer"));
}

#[test]
fn function_match_sees_quoted_names_in_auth_entries() {
    let env = TxEnvelope::Tx {
        source_account: OTHER.to_string(),
        operations: vec![TxOp {
            source_account: None,
            body: OpBody::InvokeHostFunction {
                auth_renders: vec!["SorobanAuthorizedInvocation { fn: \"mint\" }".to_string()],
                host_fn_render: String::new(),
            },
        }],
    };
    assert!(transaction_calls_function(&env, "mint"));
    assert!(!transaction_calls_function(&env, "burn"));
}

#[test]
fn non_invoke_operations_never_match_contract_or_function() {
    let env = payment_tx(OTHER, CONTRACT);
    assert!(!transaction_involves_contract(&env, CONTRACT));
    assert!(!transaction_calls_function(&env, "transfer"));
}

#[test]
fn filter_batch_dispatches_on_predicate() {
    let batch = DecodedBatch {
        start_sequence: 9,
        end_sequence: 9,
        records: vec![LedgerRecord::V0 { txs: vec![payment_tx(TARGET, OTHER)] }],
    };
    let by_addr = filter_batch(&batch, &MatchPredicate::Address(TARGET.to_string()));
    assert_eq!(by_addr.len(), 1);
    let by_fn = filter_batch(&batch, &MatchPredicate::FunctionName("transfer".to_string()));
    assert!(by_fn.is_empty());
    let by_contract = filter_batch(&batch, &MatchPredicate::Contract(CONTRACT.to_string()));
    assert!(by_contract.is_empty());
}

#[test]
fn operation_source_account_is_matched() {
    let env = TxEnvelope::TxV0 {
        source_account: OTHER.to_string(),
        operations: vec![TxOp {
            source_account: Some(TARGET.to_string()),
            body: OpBody::SetOptions,
        }],
    };
    let batch = DecodedBatch {
        start_sequence: 3,
        end_sequence: 3,
        records: vec![LedgerRecord::V0 { txs: vec![env] }],
    };
    assert_eq!(filter_by_address(&batch, TARGET), vec![TxRef { record: 0, item: 0 }]);
}

#[test]
fn function_filter_passes_current_schema_through() {
    let batch = DecodedBatch {
        start_sequence: 2,
        end_sequence: 2,
        records: vec![LedgerRecord::V1 { tx_count: 3 }],
    };
    let refs = filter_by_function(&batch, "transfer");
    assert_eq!(refs.len(), 3);
}
