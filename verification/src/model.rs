//! The decoded shapes the filter engine works on.
//!
//! A fetched ledger payload decodes into a batch of records. Each record
//! either carries its transaction set in full (the legacy schema) or only
//! post-execution processing results (the current schemas, where the raw
//! envelopes are not recoverable from the record alone). Transactions are
//! held with exactly the data the filters read: every address already in
//! its human-readable form, and the invocation payloads of contract calls
//! as their textual renderings.

use vstd::prelude::*;

verus! {

/// The asset of a trust-line change; only credit assets carry an issuer.
pub enum TrustAsset {
    Native,
    CreditAlphanum4 { issuer: String },
    CreditAlphanum12 { issuer: String },
    PoolShare,
}

/// One operation kind with the address-bearing fields the filters read.
pub enum OpBody {
    CreateAccount { destination: String },
    Payment { destination: String },
    PathPaymentStrictReceive { destination: String },
    PathPaymentStrictSend { destination: String },
    ManageSellOffer,
    CreatePassiveSellOffer,
    SetOptions,
    ChangeTrust { line: TrustAsset },
    AllowTrust { trustor: String },
    AccountMerge { destination: String },
    ManageData,
    BumpSequence,
    ManageBuyOffer,
    Inflation,
    BeginSponsoringFutureReserves { sponsored_id: String },
    EndSponsoringFutureReserves,
    RevokeSponsorship,
    Clawback { from: String },
    ClawbackClaimableBalance,
    SetTrustLineFlags { trustor: String },
    LiquidityPoolDeposit,
    LiquidityPoolWithdraw,
    InvokeHostFunction { auth_renders: Vec<String>, host_fn_render: String },
    ExtendFootprintTtl,
    RestoreFootprint,
    CreateClaimableBalance,
    ClaimClaimableBalance,
}

/// One operation: an optional override source account and its body.
pub struct TxOp {
    pub source_account: Option<String>,
    pub body: OpBody,
}

/// A transaction envelope: the legacy unsigned-account shape, the current
/// shape, or a fee-bump wrapper around an inner transaction.
pub enum TxEnvelope {
    TxV0 { source_account: String, operations: Vec<TxOp> },
    Tx { source_account: String, operations: Vec<TxOp> },
    TxFeeBump { fee_source: String, inner_source_account: String, inner_operations: Vec<TxOp> },
}

/// One ledger record. The legacy schema holds the transaction set; the
/// current schemas hold only processing results, counted here.
pub enum LedgerRecord {
    V0 { txs: Vec<TxEnvelope> },
    V1 { tx_count: usize },
    V2 { tx_count: usize },
}

/// A decoded batch: the span it covers and its records in ledger order.
pub struct DecodedBatch {
    pub start_sequence: u32,
    pub end_sequence: u32,
    pub records: Vec<LedgerRecord>,
}

/// A reference into a batch: record index, and the transaction or
/// processing-result index within that record.
#[derive(Debug, Clone, Copy, PartialEq, Eq, Structural)]
pub struct TxRef {
    pub record: usize,
    pub item: usize,
}

/// What to match transactions against.
pub enum MatchPredicate {
    Address(String),
    Contract(String),
    FunctionName(String),
}

} // verus!
