//! The filter engine: deciding which transactions of a decoded batch
//! match an address, contract or function-name predicate.
//!
//! Records of the legacy schema are filtered transaction by transaction.
//! Records of the current schemas hold only processing results, against
//! which the predicates cannot be evaluated; their entries pass through
//! unfiltered, which reproduces the upstream schema limitation.

use vstd::prelude::*;

use crate::model::{
    DecodedBatch, LedgerRecord, MatchPredicate, OpBody, TrustAsset, TxEnvelope, TxOp, TxRef,
};
use crate::strops::{concat3, seq_contains, str_contains, str_eq};

verus! {

/// Whether a trust-line asset's issuer is the target address.
pub open spec fn trust_asset_involves(line: TrustAsset, target: Seq<char>) -> bool {
    match line {
        TrustAsset::Native => false,
        TrustAsset::CreditAlphanum4 { issuer } => issuer@ == target,
        TrustAsset::CreditAlphanum12 { issuer } => issuer@ == target,
        TrustAsset::PoolShare => false,
    }
}

/// Whether an operation's own address-bearing field is the target.
pub open spec fn op_body_involves(b: OpBody, target: Seq<char>) -> bool {
    match b {
        OpBody::CreateAccount { destination } => destination@ == target,
        OpBody::Payment { destination } => destination@ == target,
        OpBody::PathPaymentStrictReceive { destination } => destination@ == target,
        OpBody::PathPaymentStrictSend { destination } => destination@ == target,
        OpBody::ChangeTrust { line } => trust_asset_involves(line, target),
        OpBody::AllowTrust { trustor } => trustor@ == target,
        OpBody::AccountMerge { destination } => destination@ == target,
        OpBody::BeginSponsoringFutureReserves { sponsored_id } => sponsored_id@ == target,
        OpBody::Clawback { from } => from@ == target,
        OpBody::SetTrustLineFlags { trustor } => trustor@ == target,
        _ => false,
    }
}

/// Whether an operation involves the target address, through its override
/// source account or its body.
pub open spec fn op_involves(op: TxOp, target: Seq<char>) -> bool {
    (match op.source_account {
        Some(s) => s@ == target,
        None => false,
    }) || op_body_involves(op.body, target)
}

/// Whether any operation of the sequence involves the target address.
pub open spec fn ops_involve(ops: Seq<TxOp>, target: Seq<char>) -> bool {
    exists|i: int| 0 <= i < ops.len() && op_involves(ops[i], target)
}

/// Whether a transaction involves the target address: its source account
/// (for a fee bump, the fee source and the inner source) or any of its
/// operations.
pub open spec fn tx_involves_address(env: TxEnvelope, target: Seq<char>) -> bool {
    match env {
        TxEnvelope::TxV0 { source_account, operations } => source_account@ == target
            || ops_involve(operations@, target),
        TxEnvelope::Tx { source_account, operations } => source_account@ == target
            || ops_involve(operations@, target),
        TxEnvelope::TxFeeBump { fee_source, inner_source_account, inner_operations } => fee_source@
            == target || inner_source_account@ == target || ops_involve(
            inner_operations@,
            target,
        ),
    }
}

/// The operations a predicate is evaluated against: a fee bump is
/// unwrapped to its inner transaction's operations.
pub open spec fn effective_ops(env: TxEnvelope) -> Seq<TxOp> {
    match env {
        TxEnvelope::TxV0 { operations, .. } => operations@,
        TxEnvelope::Tx { operations, .. } => operations@,
        TxEnvelope::TxFeeBump { inner_operations, .. } => inner_operations@,
    }
}

/// Whether any of the renderings holds `needle` as a substring.
pub open spec fn any_render_contains(renders: Seq<String>, needle: Seq<char>) -> bool {
    exists|i: int| 0 <= i < renders.len() && seq_contains(#[trigger] renders[i]@, needle)
}

/// Whether a contract-invocation operation mentions the contract address
/// in any authorization rendering or in the host-function rendering.
pub open spec fn op_mentions_contract(b: OpBody, contract: Seq<char>) -> bool {
    match b {
        OpBody::InvokeHostFunction { auth_renders, host_fn_render } => any_render_contains(
            auth_renders@,
            contract,
        ) || seq_contains(host_fn_render@, contract),
        _ => false,
    }
}

/// Whether a transaction invokes the given contract, by exact substring
/// search over the invocation renderings.
pub open spec fn tx_involves_contract(env: TxEnvelope, contract: Seq<char>) -> bool {
    exists|i: int|
        0 <= i < effective_ops(env).len() && op_mentions_contract(
            #[trigger] effective_ops(env)[i].body,
            contract,
        )
}

/// The function name wrapped in double quotes.
pub open spec fn quoted_needle(name: Seq<char>) -> Seq<char> {
    "\""@ + name + "\""@
}

/// The rendered form of a named function symbol in an authorization tree.
pub open spec fn auth_fn_needle(name: Seq<char>) -> Seq<char> {
    "function_name: Symbol(StringM("@ + name + ")"@
}

/// The rendered form of a named function symbol in a host function.
pub open spec fn host_fn_needle(name: Seq<char>) -> Seq<char> {
    "Symbol(StringM("@ + name + ")"@
}

/// Whether any of the renderings holds either needle as a substring.
pub open spec fn any_render_contains_either(
    renders: Seq<String>,
    needle1: Seq<char>,
    needle2: Seq<char>,
) -> bool {
    exists|i: int|
        0 <= i < renders.len() && (seq_contains(#[trigger] renders[i]@, needle1) || seq_contains(
            renders[i]@,
            needle2,
        ))
}

/// Whether a contract-invocation operation carries the named function,
/// by exact, case-sensitive substring search over the renderings.
pub open spec fn op_calls_function(b: OpBody, name: Seq<char>) -> bool {
    match b {
        OpBody::InvokeHostFunction { auth_renders, host_fn_render } => any_render_contains_either(
            auth_renders@,
            quoted_needle(name),
            auth_fn_needle(name),
        ) || seq_contains(host_fn_render@, quoted_needle(name)) || seq_contains(
            host_fn_render@,
            host_fn_needle(name),
        ),
        _ => false,
    }
}

/// Whether a transaction calls the named function in any operation.
pub open spec fn tx_calls_function(env: TxEnvelope, name: Seq<char>) -> bool {
    exists|i: int|
        0 <= i < effective_ops(env).len() && op_calls_function(
            #[trigger] effective_ops(env)[i].body,
            name,
        )
}

/// Checks one operation body against the target address.
pub fn operation_involves_address(body: &OpBody, target_address: &str) -> (r: bool)
    ensures
        r == op_body_involves(*body, target_address@),
{
    match body {
        OpBody::CreateAccount { destination } => str_eq(destination.as_str(), target_address),
        OpBody::Payment { destination } => str_eq(destination.as_str(), target_address),
        OpBody::PathPaymentStrictReceive { destination } => str_eq(
            destination.as_str(),
            target_address,
        ),
        OpBody::PathPaymentStrictSend { destination } => str_eq(
            destination.as_str(),
            target_address,
        ),
        OpBody::ManageSellOffer => false,
        OpBody::CreatePassiveSellOffer => false,
        OpBody::SetOptions => false,
        OpBody::ChangeTrust { line } => match line {
            TrustAsset::Native => false,
            TrustAsset::CreditAlphanum4 { issuer } => str_eq(issuer.as_str(), target_address),
            TrustAsset::CreditAlphanum12 { issuer } => str_eq(issuer.as_str(), target_address),
            TrustAsset::PoolShare => false,
        },
        OpBody::AllowTrust { trustor } => str_eq(trustor.as_str(), target_address),
        OpBody::AccountMerge { destination } => str_eq(destination.as_str(), target_address),
        OpBody::ManageData => false,
        OpBody::BumpSequence => false,
        OpBody::ManageBuyOffer => false,
        OpBody::Inflation => false,
        OpBody::BeginSponsoringFutureReserves { sponsored_id } => str_eq(
            sponsored_id.as_str(),
            target_address,
        ),
        OpBody::EndSponsoringFutureReserves => false,
        OpBody::RevokeSponsorship => false,
        OpBody::Clawback { from } => str_eq(from.as_str(), target_address),
        OpBody::ClawbackClaimableBalance => false,
        OpBody::SetTrustLineFlags { trustor } => str_eq(trustor.as_str(), target_address),
        OpBody::LiquidityPoolDeposit => false,
        OpBody::LiquidityPoolWithdraw => false,
        OpBody::InvokeHostFunction { .. } => false,
        OpBody::ExtendFootprintTtl => false,
        OpBody::RestoreFootprint => false,
        OpBody::CreateClaimableBalance => false,
        OpBody::ClaimClaimableBalance => false,
    }
}

fn ops_involve_address(ops: &Vec<TxOp>, target: &str) -> (r: bool)
    ensures
        r == ops_involve(ops@, target@),
{
    let mut i: usize = 0;
    while i < ops.len()
        invariant
            i <= ops@.len(),
            forall|k: int| 0 <= k < i ==> !op_involves(ops@[k], target@),
        decreases ops@.len() - i,
    {
        let op = &ops[i];
        let src_match = match &op.source_account {
            Some(s) => str_eq(s.as_str(), target),
            None => false,
        };
        if src_match {
            return true;
        }
        if operation_involves_address(&op.body, target) {
            return true;
        }
        i = i + 1;
    }
    false
}

/// Checks a transaction against the target address.
pub fn transaction_involves_address(tx_envelope: &TxEnvelope, target_address: &str) -> (r: bool)
    ensures
        r == tx_involves_address(*tx_envelope, target_address@),
{
    match tx_envelope {
        TxEnvelope::TxV0 { source_account, operations } => {
            if str_eq(source_account.as_str(), target_address) {
                return true;
            }
            ops_involve_address(operations, target_address)
        },
        TxEnvelope::Tx { source_account, operations } => {
            if str_eq(source_account.as_str(), target_address) {
                return true;
            }
            ops_involve_address(operations, target_address)
        },
        TxEnvelope::TxFeeBump { fee_source, inner_source_account, inner_operations } => {
            if str_eq(fee_source.as_str(), target_address) {
                return true;
            }
            if str_eq(inner_source_account.as_str(), target_address) {
                return true;
            }
            ops_involve_address(inner_operations, target_address)
        },
    }
}

fn op_mentions_contract_check(body: &OpBody, contract: &str) -> (r: bool)
    ensures
        r == op_mentions_contract(*body, contract@),
{
    if let OpBody::InvokeHostFunction { auth_renders, host_fn_render } = body {
        let mut i: usize = 0;
        while i < auth_renders.len()
            invariant
                i <= auth_renders@.len(),
                *body == (OpBody::InvokeHostFunction {
                    auth_renders: *auth_renders,
                    host_fn_render: *host_fn_render,
                }),
                forall|k: int| 0 <= k < i ==> !seq_contains(auth_renders@[k]@, contract@),
            decreases auth_renders@.len() - i,
        {
            if str_contains(auth_renders[i].as_str(), contract) {
                proof {
                    assert(0 <= i < auth_renders@.len() && seq_contains(
                        auth_renders@[i as int]@,
                        contract@,
                    ));
                }
                return true;
            }
            i = i + 1;
        }
        str_contains(host_fn_render.as_str(), contract)
    } else {
        false
    }
}

/// Checks a transaction against the contract address.
pub fn transaction_involves_contract(tx_envelope: &TxEnvelope, contract_address: &str) -> (r: bool)
    ensures
        r == tx_involves_contract(*tx_envelope, contract_address@),
{
    let ops: &Vec<TxOp> = match tx_envelope {
        TxEnvelope::TxV0 { operations, .. } => operations,
        TxEnvelope::Tx { operations, .. } => operations,
        TxEnvelope::TxFeeBump { inner_operations, .. } => inner_operations,
    };
    let mut i: usize = 0;
    while i < ops.len()
        invariant
            ops@ == effective_ops(*tx_envelope),
            i <= ops@.len(),
            forall|k: int| 0 <= k < i ==> !op_mentions_contract(ops@[k].body, contract_address@),
        decreases ops@.len() - i,
    {
        if op_mentions_contract_check(&ops[i].body, contract_address) {
            return true;
        }
        i = i + 1;
    }
    false
}

/// Checks a transaction against the function name.
pub fn transaction_calls_function(tx_envelope: &TxEnvelope, function_name: &str) -> (r: bool)
    ensures
        r == tx_calls_function(*tx_envelope, function_name@),
{
    let quoted = concat3("\"", function_name, "\"");
    let auth_needle = concat3("function_name: Symbol(StringM(", function_name, ")");
    let host_needle = concat3("Symbol(StringM(", function_name, ")");
    let ops: &Vec<TxOp> = match tx_envelope {
        TxEnvelope::TxV0 { operations, .. } => operations,
        TxEnvelope::Tx { operations, .. } => operations,
        TxEnvelope::TxFeeBump { inner_operations, .. } => inner_operations,
    };
    let mut i: usize = 0;
    while i < ops.len()
        invariant
            ops@ == effective_ops(*tx_envelope),
            i <= ops@.len(),
            quoted@ == quoted_needle(function_name@),
            auth_needle@ == auth_fn_needle(function_name@),
            host_needle@ == host_fn_needle(function_name@),
            forall|k: int| 0 <= k < i ==> !op_calls_function(ops@[k].body, function_name@),
        decreases ops@.len() - i,
    {
        if let OpBody::InvokeHostFunction { auth_renders, host_fn_render } = &ops[i].body {
            let mut j: usize = 0;
            while j < auth_renders.len()
                invariant
                    j <= auth_renders@.len(),
                    ops@ == effective_ops(*tx_envelope),
                    i < ops@.len(),
                    ops@[i as int].body == (OpBody::InvokeHostFunction {
                        auth_renders: *auth_renders,
                        host_fn_render: *host_fn_render,
                    }),
                    quoted@ == quoted_needle(function_name@),
                    auth_needle@ == auth_fn_needle(function_name@),
                    forall|k: int|
                        0 <= k < j ==> !seq_contains(auth_renders@[k]@, quoted_needle(
                            function_name@,
                        )) && !seq_contains(auth_renders@[k]@, auth_fn_needle(function_name@)),
                decreases auth_renders@.len() - j,
            {
                if str_contains(auth_renders[j].as_str(), quoted.as_str()) || str_contains(
                    auth_renders[j].as_str(),
                    auth_needle.as_str(),
                ) {
                    proof {
                        assert(0 <= j < auth_renders@.len() && (seq_contains(
                            auth_renders@[j as int]@,
                            quoted_needle(function_name@),
                        ) || seq_contains(auth_renders@[j as int]@, auth_fn_needle(
                            function_name@,
                        ))));
                        assert(op_calls_function(ops@[i as int].body, function_name@));
                    }
                    return true;
                }
                j = j + 1;
            }
            if str_contains(host_fn_render.as_str(), quoted.as_str()) || str_contains(
                host_fn_render.as_str(),
                host_needle.as_str(),
            ) {
                return true;
            }
        }
        i = i + 1;
    }
    false
}

/// Whether a transaction satisfies a predicate.
pub open spec fn pred_holds(p: MatchPredicate, e: TxEnvelope) -> bool {
    match p {
        MatchPredicate::Address(a) => tx_involves_address(e, a@),
        MatchPredicate::Contract(c) => tx_involves_contract(e, c@),
        MatchPredicate::FunctionName(n) => tx_calls_function(e, n@),
    }
}

fn tx_matches(env: &TxEnvelope, pred: &MatchPredicate) -> (r: bool)
    ensures
        r == pred_holds(*pred, *env),
{
    match pred {
        MatchPredicate::Address(a) => transaction_involves_address(env, a.as_str()),
        MatchPredicate::Contract(c) => transaction_involves_contract(env, c.as_str()),
        MatchPredicate::FunctionName(n) => transaction_calls_function(env, n.as_str()),
    }
}

/// The references a legacy record contributes: its matching transactions,
/// in order.
pub open spec fn v0_matches(
    txs: Seq<TxEnvelope>,
    ridx: usize,
    p: spec_fn(TxEnvelope) -> bool,
) -> Seq<TxRef>
    decreases txs.len(),
{
    if txs.len() == 0 {
        Seq::empty()
    } else {
        v0_matches(txs.drop_last(), ridx, p) + if p(txs.last()) {
            seq![TxRef { record: ridx, item: (txs.len() - 1) as usize }]
        } else {
            Seq::empty()
        }
    }
}

/// The references a processing-results record contributes: every entry,
/// unfiltered.
pub open spec fn passthrough_refs(n: int, ridx: usize) -> Seq<TxRef> {
    Seq::new(n as nat, |i: int| TxRef { record: ridx, item: i as usize })
}

/// The references one record contributes under a predicate.
pub open spec fn record_matches(
    rec: LedgerRecord,
    ridx: usize,
    p: spec_fn(TxEnvelope) -> bool,
) -> Seq<TxRef> {
    match rec {
        LedgerRecord::V0 { txs } => v0_matches(txs@, ridx, p),
        LedgerRecord::V1 { tx_count } => passthrough_refs(tx_count as int, ridx),
        LedgerRecord::V2 { tx_count } => passthrough_refs(tx_count as int, ridx),
    }
}

/// The references a whole batch yields, record by record in order.
pub open spec fn batch_matches(
    records: Seq<LedgerRecord>,
    p: spec_fn(TxEnvelope) -> bool,
) -> Seq<TxRef>
    decreases records.len(),
{
    if records.len() == 0 {
        Seq::empty()
    } else {
        batch_matches(records.drop_last(), p) + record_matches(
            records.last(),
            (records.len() - 1) as usize,
            p,
        )
    }
}

/// What filtering a batch under a predicate yields.
pub open spec fn batch_filter_of(batch: DecodedBatch, p: MatchPredicate) -> Seq<TxRef> {
    batch_matches(batch.records@, |e: TxEnvelope| pred_holds(p, e))
}

/// Filters a batch under a predicate: legacy records contribute exactly
/// their matching transactions, current-schema records pass every entry
/// through, and ledger-then-transaction order is preserved.
pub fn filter_batch(batch: &DecodedBatch, pred: &MatchPredicate) -> (r: Vec<TxRef>)
    ensures
        r@ == batch_filter_of(*batch, *pred),
{
    let ghost pf: spec_fn(TxEnvelope) -> bool = |e: TxEnvelope| pred_holds(*pred, e);
    let mut out: Vec<TxRef> = Vec::new();
    let mut ri: usize = 0;
    while ri < batch.records.len()
        invariant
            ri <= batch.records@.len(),
            pf == (|e: TxEnvelope| pred_holds(*pred, e)),
            out@ == batch_matches(batch.records@.subrange(0, ri as int), pf),
        decreases batch.records@.len() - ri,
    {
        let ghost prev = out@;
        match &batch.records[ri] {
            LedgerRecord::V0 { txs } => {
                let mut ti: usize = 0;
                while ti < txs.len()
                    invariant
                        ti <= txs@.len(),
                        pf == (|e: TxEnvelope| pred_holds(*pred, e)),
                        batch.records@[ri as int] == (LedgerRecord::V0 { txs: *txs }),
                        out@ == prev + v0_matches(txs@.subrange(0, ti as int), ri, pf),
                    decreases txs@.len() - ti,
                {
                    if tx_matches(&txs[ti], pred) {
                        out.push(TxRef { record: ri, item: ti });
                    }
                    proof {
                        let cur = txs@.subrange(0, ti + 1);
                        assert(cur.drop_last() =~= txs@.subrange(0, ti as int));
                        assert(cur.last() == txs@[ti as int]);
                        if pf(txs@[ti as int]) {
                            assert(out@ =~= prev + v0_matches(cur, ri, pf));
                        } else {
                            assert(out@ =~= prev + v0_matches(cur, ri, pf));
                        }
                    }
                    ti = ti + 1;
                }
                proof {
                    assert(txs@.subrange(0, txs@.len() as int) =~= txs@);
                }
            },
            LedgerRecord::V1 { tx_count } => {
                let n = *tx_count;
                let mut k: usize = 0;
                while k < n
                    invariant
                        k <= n,
                        out@ == prev + passthrough_refs(k as int, ri),
                    decreases n - k,
                {
                    out.push(TxRef { record: ri, item: k });
                    proof {
                        assert(out@ =~= prev + passthrough_refs(k + 1, ri));
                    }
                    k = k + 1;
                }
            },
            LedgerRecord::V2 { tx_count } => {
                let n = *tx_count;
                let mut k: usize = 0;
                while k < n
                    invariant
                        k <= n,
                        out@ == prev + passthrough_refs(k as int, ri),
                    decreases n - k,
                {
                    out.push(TxRef { record: ri, item: k });
                    proof {
                        assert(out@ =~= prev + passthrough_refs(k + 1, ri));
                    }
                    k = k + 1;
                }
            },
        }
        proof {
            let subnext = batch.records@.subrange(0, ri + 1);
            assert(subnext.drop_last() =~= batch.records@.subrange(0, ri as int));
            assert(subnext.last() == batch.records@[ri as int]);
            assert(out@ == batch_matches(subnext, pf));
        }
        ri = ri + 1;
    }
    proof {
        assert(batch.records@.subrange(0, batch.records@.len() as int) =~= batch.records@);
    }
    out
}

proof fn lemma_v0_matches_ext(
    txs: Seq<TxEnvelope>,
    ridx: usize,
    p: spec_fn(TxEnvelope) -> bool,
    q: spec_fn(TxEnvelope) -> bool,
)
    requires
        forall|e: TxEnvelope| #[trigger] p(e) == q(e),
    ensures
        v0_matches(txs, ridx, p) == v0_matches(txs, ridx, q),
    decreases txs.len(),
{
    if txs.len() > 0 {
        lemma_v0_matches_ext(txs.drop_last(), ridx, p, q);
    }
}

proof fn lemma_batch_matches_ext(
    records: Seq<LedgerRecord>,
    p: spec_fn(TxEnvelope) -> bool,
    q: spec_fn(TxEnvelope) -> bool,
)
    requires
        forall|e: TxEnvelope| #[trigger] p(e) == q(e),
    ensures
        batch_matches(records, p) == batch_matches(records, q),
    decreases records.len(),
{
    if records.len() > 0 {
        lemma_batch_matches_ext(records.drop_last(), p, q);
        match records.last() {
            LedgerRecord::V0 { txs } => {
                lemma_v0_matches_ext(txs@, (records.len() - 1) as usize, p, q);
            },
            _ => {},
        }
    }
}

/// Filters a batch by account address.
pub fn filter_by_address(batch: &DecodedBatch, address: &str) -> (r: Vec<TxRef>)
    ensures
        r@ == batch_matches(
            batch.records@,
            |e: TxEnvelope| tx_involves_address(e, address@),
        ),
{
    let pred = MatchPredicate::Address(address.to_owned());
    let r = filter_batch(batch, &pred);
    proof {
        lemma_batch_matches_ext(
            batch.records@,
            |e: TxEnvelope| pred_holds(pred, e),
            |e: TxEnvelope| tx_involves_address(e, address@),
        );
    }
    r
}

/// Filters a batch by contract address.
pub fn filter_by_contract(batch: &DecodedBatch, contract_address: &str) -> (r: Vec<TxRef>)
    ensures
        r@ == batch_matches(
            batch.records@,
            |e: TxEnvelope| tx_involves_contract(e, contract_address@),
        ),
{
    let pred = MatchPredicate::Contract(contract_address.to_owned());
    let r = filter_batch(batch, &pred);
    proof {
        lemma_batch_matches_ext(
            batch.records@,
            |e: TxEnvelope| pred_holds(pred, e),
            |e: TxEnvelope| tx_involves_contract(e, contract_address@),
        );
    }
    r
}

/// Filters a batch by function name.
pub fn filter_by_function(batch: &DecodedBatch, function_name: &str) -> (r: Vec<TxRef>)
    ensures
        r@ == batch_matches(
            batch.records@,
            |e: TxEnvelope| tx_calls_function(e, function_name@),
        ),
{
    let pred = MatchPredicate::FunctionName(function_name.to_owned());
    let r = filter_batch(batch, &pred);
    proof {
        lemma_batch_matches_ext(
            batch.records@,
            |e: TxEnvelope| pred_holds(pred, e),
            |e: TxEnvelope| tx_calls_function(e, function_name@),
        );
    }
    r
}

/// A transaction one of whose operations is a payment to the target
/// address is matched by the address predicate.
pub proof fn lemma_payment_destination_matches(env: TxEnvelope, i: int, target: Seq<char>)
    requires
        0 <= i < effective_ops(env).len(),
        match effective_ops(env)[i].body {
            OpBody::Payment { destination } => destination@ == target,
            _ => false,
        },
    ensures
        tx_involves_address(env, target),
{
    assert(op_involves(effective_ops(env)[i], target));
}

} // verus!
