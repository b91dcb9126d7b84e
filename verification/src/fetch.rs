//! The two-source fetch pipeline: the request the fallback RPC is asked
//! with, the processing of what either source returned, and the decision
//! of when the fallback is tried at all.
//!
//! Network transport itself stays outside the library; these functions
//! build the exact request text and turn response bodies into decoded
//! batches or errors.

use vstd::prelude::*;

use crate::jsonio::{
    horizon_latest_extract, horizon_seq_of, rpc_error_of, rpc_ledgers_empty_of,
    rpc_ledgers_extract, rpc_meta_b64_of, RpcLedgers,
};
use crate::numstr::{dec_of, digit_char, digit_str, u32_to_dec};
use crate::xdrio::{batch_parses, decompress, meta_decodes, parse_xdr, rewrap_single, rewrapped_of, zstd_inflate_of};
use stellar_xdr::curr::LedgerCloseMetaBatch;

verus! {

/// Why fetching one ledger failed.
#[derive(Debug)]
pub enum FetchError {
    /// The ledger is absent from both sources.
    NotFound { sequence: u32 },
    /// The network transfer itself failed.
    Transport { message: String },
    /// The remote end reported an error.
    Rpc { message: String },
    /// The payload or response could not be decoded.
    Decode { message: String },
}

impl FetchError {
    /// Renders the failure as text.
    pub fn message(&self) -> (r: String)
        ensures
            match *self {
                FetchError::NotFound { sequence } => r@ == "Ledger "@ + dec_of(sequence as nat)
                    + " not found in RPC"@,
                FetchError::Transport { message } => r@ == message@,
                FetchError::Rpc { message } => r@ == message@,
                FetchError::Decode { message } => r@ == message@,
            },
    {
        match self {
            FetchError::NotFound { sequence } => {
                let mut m = "Ledger ".to_owned();
                m.append(u32_to_dec(*sequence).as_str());
                m.append(" not found in RPC");
                m
            },
            FetchError::Transport { message } => message.clone(),
            FetchError::Rpc { message } => message.clone(),
            FetchError::Decode { message } => message.clone(),
        }
    }
}

/// The JSON-RPC request that asks the fallback source for one ledger:
/// method getLedgers, starting at `seq`, limited to one result.
pub open spec fn getledgers_body_of(seq: u32) -> Seq<char> {
    "{\"jsonrpc\":\"2.0\",\"id\":1,\"method\":\"getLedgers\",\"params\":{\"startLedger\":"@
        + dec_of(seq as nat) + ",\"pagination\":{\"limit\":1}}}"@
}

/// Builds the getLedgers request body for sequence `seq`.
pub fn rpc_getledgers_body(seq: u32) -> (r: String)
    ensures
        r@ == getledgers_body_of(seq),
{
    let mut m =
        "{\"jsonrpc\":\"2.0\",\"id\":1,\"method\":\"getLedgers\",\"params\":{\"startLedger\":"
        .to_owned();
    m.append(u32_to_dec(seq).as_str());
    m.append(",\"pagination\":{\"limit\":1}}}");
    m
}

/// The escaped form of one character inside a JSON string literal.
pub open spec fn esc_char(c: char) -> Seq<char> {
    if c == '"' {
        seq!['\\', '"']
    } else if c == '\\' {
        seq!['\\', '\\']
    } else if (c as u32) < 32 {
        seq!['\\', 'u', '0', '0', digit_char((c as u32 / 16) as nat), digit_char(
            (c as u32 % 16) as nat,
        )]
    } else {
        seq![c]
    }
}

/// The body of a JSON string literal holding `s`.
pub open spec fn json_escaped(s: Seq<char>) -> Seq<char>
    decreases s.len(),
{
    if s.len() == 0 {
        Seq::empty()
    } else {
        json_escaped(s.drop_last()) + esc_char(s.last())
    }
}

/// Escapes `s` for inclusion in a JSON string literal.
pub fn json_escape(s: &str) -> (r: String)
    ensures
        r@ == json_escaped(s@),
{
    let n = s.unicode_len();
    let mut r = String::new();
    let mut i: usize = 0;
    while i < n
        invariant
            n == s@.len(),
            i <= n,
            r@ == json_escaped(s@.subrange(0, i as int)),
        decreases n - i,
    {
        let c = s.get_char(i);
        let code = c as u32;
        if c == '"' {
            r.append("\\\"");
            proof {
                reveal_strlit("\\\"");
            }
        } else if c == '\\' {
            r.append("\\\\");
            proof {
                reveal_strlit("\\\\");
            }
        } else if code < 32 {
            r.append("\\u00");
            r.append(digit_str(code / 16));
            r.append(digit_str(code % 16));
            proof {
                reveal_strlit("\\u00");
            }
        } else {
            let one = crate::textio::char_string(c);
            r.append(one.as_str());
        }
        proof {
            let cur = s@.subrange(0, i + 1);
            assert(cur.drop_last() =~= s@.subrange(0, i as int));
            assert(cur.last() == c);
            assert(r@ =~= json_escaped(s@.subrange(0, i as int)) + esc_char(c));
        }
        i = i + 1;
    }
    proof {
        assert(s@.subrange(0, n as int) =~= s@);
    }
    r
}

/// The JSON-RPC request that asks for a transaction simulation, with the
/// base64 envelope as its one parameter.
pub open spec fn simulate_body_of(tx_b64: Seq<char>) -> Seq<char> {
    "{\"jsonrpc\":\"2.0\",\"id\":1,\"method\":\"simulateTransaction\",\"params\":{\"transaction\":\""@
        + json_escaped(tx_b64) + "\"}}"@
}

/// Builds the simulateTransaction request body for an encoded envelope.
pub fn rpc_simulate_body(tx_b64: &str) -> (r: String)
    ensures
        r@ == simulate_body_of(tx_b64@),
{
    let mut m =
        "{\"jsonrpc\":\"2.0\",\"id\":1,\"method\":\"simulateTransaction\",\"params\":{\"transaction\":\""
        .to_owned();
    m.append(json_escape(tx_b64).as_str());
    m.append("\"}}");
    m
}

/// Whether a primary-store status means the object is missing, which is
/// the one condition under which the fallback RPC is tried.
pub fn fallback_on_status(status: u16) -> (r: bool)
    ensures
        r == (status == 404),
{
    status == 404
}

/// Decompresses and decodes a primary-store payload into a batch.
///
/// A batch comes back exactly when the payload inflates and the inflated
/// bytes encode one; each stage's failure is a decode error of its own,
/// and neither is ever retried.
pub fn process_store_payload(data: &[u8]) -> (r: Result<LedgerCloseMetaBatch, FetchError>)
    ensures
        (r is Ok) == (zstd_inflate_of(data@) matches Some(v) && batch_parses(v)),
        zstd_inflate_of(data@) is None ==> (r matches Err(e) && e matches FetchError::Decode {
            message,
        } && message@ == "Failed to decompress zstd data"@),
        (zstd_inflate_of(data@) matches Some(v) && !batch_parses(v)) ==> (r matches Err(e)
            && e matches FetchError::Decode { message } && message@ == "Failed to parse XDR data"@),
{
    match decompress(data) {
        None => Err(
            FetchError::Decode { message: "Failed to decompress zstd data".to_owned() },
        ),
        Some(bytes) => match parse_xdr(bytes.as_slice()) {
            None => Err(FetchError::Decode { message: "Failed to parse XDR data".to_owned() }),
            Some(batch) => Ok(batch),
        },
    }
}

/// Turns a getLedgers response body into the batch XDR bytes the primary
/// store would have served for `seq`: the one returned record re-wrapped
/// in a single-ledger batch covering exactly `seq`.
///
/// A reported RPC error is surfaced as such; an empty ledger list means
/// the sequence is not found; a record that reaches decoding yields the
/// re-wrapped bytes exactly when it decodes; any malformed shape is a
/// decode error.
pub fn process_rpc_response(seq: u32, body: &str) -> (r: Result<Vec<u8>, FetchError>)
    ensures
        rpc_error_of(body@) matches Some(er) ==> (r matches Err(e) && e matches FetchError::Rpc {
            message,
        } && message@ == "RPC error: "@ + er),
        rpc_ledgers_empty_of(body@) ==> r == Err::<Vec<u8>, FetchError>(
            FetchError::NotFound { sequence: seq },
        ),
        rpc_meta_b64_of(body@) matches Some(m) ==> ((meta_decodes(m) ==> (r matches Ok(bytes)
            && bytes@ == rewrapped_of(seq, m))) && (!meta_decodes(m) ==> (r matches Err(e)
            && e matches FetchError::Decode { message } && message@
            == "Failed to decode metadataXdr from RPC"@))),
        r is Ok ==> (rpc_meta_b64_of(body@) matches Some(m) && meta_decodes(m)),
{
    match rpc_ledgers_extract(body) {
        RpcLedgers::Invalid => Err(
            FetchError::Decode { message: "Failed to parse RPC response".to_owned() },
        ),
        RpcLedgers::ReportedError { rendered } => {
            let mut m = "RPC error: ".to_owned();
            m.append(rendered.as_str());
            Err(FetchError::Rpc { message: m })
        },
        RpcLedgers::MissingResult => Err(
            FetchError::Rpc { message: "No result in RPC response".to_owned() },
        ),
        RpcLedgers::MissingLedgers => Err(
            FetchError::Decode { message: "No ledgers in RPC response".to_owned() },
        ),
        RpcLedgers::Empty => Err(FetchError::NotFound { sequence: seq }),
        RpcLedgers::MissingMeta => Err(
            FetchError::Decode { message: "No metadataXdr in RPC response".to_owned() },
        ),
        RpcLedgers::Meta { b64 } => match rewrap_single(seq, b64.as_str()) {
            None => Err(
                FetchError::Decode {
                    message: "Failed to decode metadataXdr from RPC".to_owned(),
                },
            ),
            Some(bytes) => Ok(bytes),
        },
    }
}

/// Reads the current chain tip out of a Horizon ledgers response: the
/// sequence of the first (most recent) record, truncated to 32 bits, or
/// nothing when the body has another shape.
pub fn extract_latest_sequence(body: &str) -> (r: Option<u32>)
    ensures
        match horizon_seq_of(body@) {
            None => r is None,
            Some(x) => r == Some(x as u32),
        },
{
    match horizon_latest_extract(body) {
        None => None,
        Some(x) => Some(#[verifier::truncate] (x as u32)),
    }
}

} // verus!
