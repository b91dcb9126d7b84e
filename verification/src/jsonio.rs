//! Trusted extraction from the JSON-RPC and Horizon response bodies.
//!
//! Each extractor performs one navigation of a response body with
//! serde_json and hands back plain values. What a navigation finds is a
//! function of the body text alone, so each finding carries a name that
//! the verified processing downstream is specified against. The names
//! describe the navigation itself: it stops at the first failing stage,
//! so a later name is empty or false whenever an earlier stage ended it.

use vstd::prelude::*;

verus! {

/// The rendering of a getLedgers response's top-level error member, when
/// the body is JSON and the member is present.
pub uninterp spec fn rpc_error_of(body: Seq<char>) -> Option<Seq<char>>;

/// Whether a getLedgers response carries no error and a result whose
/// ledger array is present and empty.
pub uninterp spec fn rpc_ledgers_empty_of(body: Seq<char>) -> bool;

/// The metadataXdr text under result.ledgers[0], when the navigation
/// reaches it: no error member, a result, a non-empty ledger array, and
/// a string metadataXdr member on its first entry.
pub uninterp spec fn rpc_meta_b64_of(body: Seq<char>) -> Option<Seq<char>>;

/// What one navigation of a getLedgers response body finds.
pub enum RpcLedgers {
    /// The body is not valid JSON.
    Invalid,
    /// The body carries a top-level error member, rendered.
    ReportedError { rendered: String },
    /// No result member.
    MissingResult,
    /// No ledger array under the result.
    MissingLedgers,
    /// The ledger array is empty.
    Empty,
    /// The first ledger has no string metadataXdr member.
    MissingMeta,
    /// The first ledger's metadataXdr text.
    Meta { b64: String },
}

/// Relies on serde_json's from_str, Value::get, as_array and as_str, and
/// its Display rendering: one navigation of a getLedgers response.
#[verifier::external_body]
pub fn rpc_ledgers_extract(body: &str) -> (r: RpcLedgers)
    ensures
        r matches RpcLedgers::ReportedError { rendered } ==> rpc_error_of(body@) == Some(
            rendered@,
        ),
        rpc_error_of(body@) is Some ==> r is ReportedError,
        (r is Empty) == rpc_ledgers_empty_of(body@),
        r matches RpcLedgers::Meta { b64 } ==> rpc_meta_b64_of(body@) == Some(b64@),
        rpc_meta_b64_of(body@) is Some ==> r is Meta,
{
    let Ok(json) = serde_json::from_str::<serde_json::Value>(body) else {
        return RpcLedgers::Invalid;
    };
    if let Some(err) = json.get("error") {
        return RpcLedgers::ReportedError { rendered: err.to_string() };
    }
    let Some(result) = json.get("result") else { return RpcLedgers::MissingResult };
    let Some(ledgers) = result.get("ledgers").and_then(|l| l.as_array()) else {
        return RpcLedgers::MissingLedgers;
    };
    if ledgers.is_empty() { return RpcLedgers::Empty; }
    match ledgers[0].get("metadataXdr").and_then(|m| m.as_str()) {
        Some(m) => RpcLedgers::Meta { b64: m.to_owned() },
        None => RpcLedgers::MissingMeta,
    }
}

/// Whether a simulation response body is valid JSON.
pub uninterp spec fn sim_valid_of(body: Seq<char>) -> bool;

/// Whether a valid simulation response carries a top-level error member.
pub uninterp spec fn sim_error_of(body: Seq<char>) -> bool;

/// Whether a valid, error-free simulation response carries a result.
pub uninterp spec fn sim_has_result_of(body: Seq<char>) -> bool;

/// The rendering of the result's own error member, when the navigation
/// reaches the result and the member is present.
pub uninterp spec fn sim_result_error_of(body: Seq<char>) -> Option<Seq<char>>;

/// The string under result.results[0].xdr, when the navigation reaches
/// the result and that entry is present.
pub uninterp spec fn sim_result_xdr_of(body: Seq<char>) -> Option<Seq<char>>;

/// What one navigation of a simulateTransaction response body finds.
pub struct SimResponse {
    pub valid: bool,
    pub reported_error: bool,
    pub has_result: bool,
    pub result_error: Option<String>,
    pub result_xdr: Option<String>,
}

/// Relies on serde_json's from_str, Value::get and as_str, and its
/// Display rendering: one navigation of a simulateTransaction response.
#[verifier::external_body]
pub fn sim_response_extract(body: &str) -> (r: SimResponse)
    ensures
        r.valid == sim_valid_of(body@),
        r.reported_error == sim_error_of(body@),
        r.has_result == sim_has_result_of(body@),
        r.result_error matches Some(s) ==> sim_result_error_of(body@) == Some(s@),
        (r.result_error is Some) == (sim_result_error_of(body@) is Some),
        r.result_xdr matches Some(s) ==> sim_result_xdr_of(body@) == Some(s@),
        (r.result_xdr is Some) == (sim_result_xdr_of(body@) is Some),
{
    let Ok(json) = serde_json::from_str::<serde_json::Value>(body) else {
        return sim_response_stage(false, false, false);
    };
    if json.get("error").is_some() {
        return sim_response_stage(true, true, false);
    }
    let Some(result) = json.get("result") else { return sim_response_stage(true, false, false) };
    let result_error = result.get("error").map(|e| e.to_string());
    let xdr = result.get("results").and_then(|r| r.get(0)).and_then(|r| r.get("xdr"));
    let result_xdr = xdr.and_then(|x| x.as_str()).map(|s| s.to_owned());
    SimResponse { valid: true, reported_error: false, has_result: true, result_error, result_xdr }
}

/// A navigation that ended at the given stage: nothing extracted yet.
fn sim_response_stage(valid: bool, reported_error: bool, has_result: bool) -> (r: SimResponse)
    ensures
        r.valid == valid,
        r.reported_error == reported_error,
        r.has_result == has_result,
        r.result_error is None,
        r.result_xdr is None,
{
    SimResponse { valid, reported_error, has_result, result_error: None, result_xdr: None }
}

/// The sequence number under _embedded.records[0].sequence of a Horizon
/// ledgers response, when the body is JSON carrying it as an unsigned
/// number.
pub uninterp spec fn horizon_seq_of(body: Seq<char>) -> Option<u64>;

/// Relies on serde_json's from_str, Value::get and as_u64: reads the
/// most recent sequence out of a Horizon ledgers response.
#[verifier::external_body]
pub fn horizon_latest_extract(body: &str) -> (r: Option<u64>)
    ensures
        r == horizon_seq_of(body@),
{
    let json: serde_json::Value = serde_json::from_str(body).ok()?;
    json.get("_embedded")?.get("records")?.get(0)?.get("sequence")?.as_u64()
}

} // verus!
