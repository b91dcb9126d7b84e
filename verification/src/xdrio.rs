//! Trusted wrappers around the XDR codec, the strkey encoding and the
//! block decompressor.
//!
//! Each result here is a pure function of plain arguments — bytes, keys
//! and text — so it carries a name that the verified logic is specified
//! against. Decoding runs under a bounded recursion depth so a crafted
//! deeply nested payload fails to decode instead of exhausting the stack.

use vstd::prelude::*;
use vstd::string::StringSliceAdditionalSpecFns;

use stellar_xdr::curr::{
    AccountId, ContractId, HostFunction, InvokeContractArgs, InvokeHostFunctionOp,
    LedgerCloseMeta, LedgerCloseMetaBatch, Limits, Memo, MuxedAccount, Operation, OperationBody,
    Preconditions, PublicKey, ReadXdr, ScAddress, ScMap, ScSymbol, ScVal, SequenceNumber,
    Transaction, TransactionEnvelope, TransactionExt, TransactionV1Envelope, Uint256, WriteXdr,
};

verus! {

#[verifier::external_type_specification]
#[verifier::external_body]
pub struct ExLedgerCloseMetaBatch(LedgerCloseMetaBatch);

#[verifier::external_type_specification]
#[verifier::external_body]
pub struct ExMuxedAccount(MuxedAccount);

#[verifier::external_type_specification]
#[verifier::external_body]
pub struct ExAccountId(AccountId);

#[verifier::external_type_specification]
#[verifier::external_body]
pub struct ExOperationBody(OperationBody);

#[verifier::external_type_specification]
#[verifier::external_body]
pub struct ExScVal(ScVal);

#[verifier::external_type_specification]
#[verifier::external_body]
pub struct ExScMap(ScMap);

/// What zstd decompression yields for a given compressed input, which
/// depends on those bytes alone.
pub uninterp spec fn zstd_inflate_of(b: Seq<u8>) -> Option<Seq<u8>>;

/// Whether a byte sequence is the complete XDR encoding of one batch.
pub uninterp spec fn batch_parses(b: Seq<u8>) -> bool;

/// The 32 key bytes a strkey account address decodes to, when the text
/// is a valid account strkey; decoding depends on the text alone.
pub uninterp spec fn account_key_of(s: Seq<char>) -> Option<Seq<u8>>;

/// The 32 key bytes a strkey contract address decodes to, when the text
/// is a valid contract strkey; decoding depends on the text alone.
pub uninterp spec fn contract_key_of(s: Seq<char>) -> Option<Seq<u8>>;

/// Whether base64 text decodes to one ledger record.
pub uninterp spec fn meta_decodes(m: Seq<char>) -> bool;

/// The XDR bytes of the single-ledger batch that re-wraps the record
/// decoded from `m`, covering exactly `seq`.
pub uninterp spec fn rewrapped_of(seq: u32, m: Seq<char>) -> Seq<u8>;

/// Relies on zstd::decode_all: inflates a complete compressed block.
#[verifier::external_body]
pub fn decompress(data: &[u8]) -> (r: Option<Vec<u8>>)
    ensures
        (r is Some) == (zstd_inflate_of(data@) is Some),
        r matches Some(v) ==> zstd_inflate_of(data@) == Some(v@),
{
    zstd::decode_all(data).ok()
}

/// Relies on LedgerCloseMetaBatch::from_xdr: decodes a batch record
/// from its XDR bytes, exactly when they encode one.
#[verifier::external_body]
pub fn parse_xdr(data: &[u8]) -> (r: Option<LedgerCloseMetaBatch>)
    ensures
        (r is Some) == batch_parses(data@),
{
    LedgerCloseMetaBatch::from_xdr(data, Limits { depth: 500, len: usize::MAX }).ok()
}

/// Relies on LedgerCloseMeta::from_xdr_base64 and
/// LedgerCloseMetaBatch::to_xdr: decodes one ledger record from base64
/// text and re-encodes it inside a batch whose start and end sequence
/// are both `seq` and whose record list holds exactly that record — the
/// shape the primary store serves. Encoding a just-decoded value to an
/// in-memory buffer under no limits cannot fail, so the result exists
/// exactly when the record decodes.
#[verifier::external_body]
pub fn rewrap_single(seq: u32, meta_b64: &str) -> (r: Option<Vec<u8>>)
    ensures
        (r is Some) == meta_decodes(meta_b64@),
        r matches Some(b) ==> b@ == rewrapped_of(seq, meta_b64@),
{
    let limits = Limits { depth: 500, len: usize::MAX };
    let meta = LedgerCloseMeta::from_xdr_base64(meta_b64, limits).ok()?;
    let batch = LedgerCloseMetaBatch {
        start_sequence: seq,
        end_sequence: seq,
        ledger_close_metas: vec![meta].try_into().ok()?,
    };
    batch.to_xdr(Limits::none()).ok()
}

/// Relies on Strkey::from_string: the key bytes of an account address,
/// or nothing for any other strkey kind or invalid text.
#[verifier::external_body]
pub fn account_strkey_decode(s: &str) -> (r: Option<[u8; 32]>)
    ensures
        (r is Some) == (account_key_of(s@) is Some),
        r matches Some(b) ==> account_key_of(s@) == Some(b@),
{
    match stellar_strkey::Strkey::from_string(s) {
        Ok(stellar_strkey::Strkey::PublicKeyEd25519(pk)) => Some(pk.0),
        _ => None,
    }
}

/// Relies on Strkey::from_string: the key bytes of a contract address,
/// or nothing for any other strkey kind or invalid text.
#[verifier::external_body]
pub fn contract_strkey_decode(s: &str) -> (r: Option<[u8; 32]>)
    ensures
        (r is Some) == (contract_key_of(s@) is Some),
        r matches Some(b) ==> contract_key_of(s@) == Some(b@),
{
    match stellar_strkey::Strkey::from_string(s) {
        Ok(stellar_strkey::Strkey::Contract(c)) => Some(c.0),
        _ => None,
    }
}

/// Relies on the strkey Display rendering of an ed25519 public key:
/// the account address of a muxed account. Any multiplexing id is
/// dropped, as the filters compare plain account addresses.
#[verifier::external_body]
pub fn muxed_account_to_string(muxed: &MuxedAccount) -> (r: String)
{
    match muxed {
        MuxedAccount::Ed25519(u) => format!("{}", stellar_strkey::ed25519::PublicKey(u.0)),
        MuxedAccount::MuxedEd25519(med) => format!(
            "{}",
            stellar_strkey::ed25519::PublicKey(med.ed25519.0),
        ),
    }
}

/// Relies on the strkey Display rendering of an ed25519 public key:
/// the account address of an account id.
#[verifier::external_body]
pub fn account_id_to_string(account: &AccountId) -> (r: String)
{
    match &account.0 {
        PublicKey::PublicKeyTypeEd25519(u) => format!(
            "{}",
            stellar_strkey::ed25519::PublicKey(u.0),
        ),
    }
}

/// The base64 XDR of the throwaway simulation envelope for a balance
/// query, as a function of the two decoded keys.
pub uninterp spec fn balance_envelope_of(account_key: Seq<u8>, token_key: Seq<u8>) -> Seq<char>;

/// Relies on the codec's constructors and TransactionEnvelope's
/// to_xdr_base64: the base64 XDR of an unsigned envelope (zero-filled
/// ed25519 source account, sequence 0, fee 100, no preconditions, no
/// memo, no signatures) holding one InvokeHostFunction operation with no
/// authorization that calls `balance` on the token contract with the
/// account address value as its one argument. Every bounded container
/// here is well under its limit and encoding writes a fixed-shape value
/// to memory under no limits, so construction cannot fail.
#[verifier::external_body]
pub fn balance_envelope(account_key: &[u8; 32], token_key: &[u8; 32]) -> (r: String)
    ensures
        r@ == balance_envelope_of(account_key@, token_key@),
{
    let address_val = ScVal::Address(ScAddress::Account(AccountId(
        PublicKey::PublicKeyTypeEd25519(Uint256(*account_key)),
    )));
    simulation_envelope(invoke_body(token_key, "balance", address_val))
}

/// The base64 XDR of the throwaway simulation envelope for a price query
/// on a Stellar asset, as a function of the oracle and asset keys.
pub uninterp spec fn price_stellar_envelope_of(oracle_key: Seq<u8>, asset_key: Seq<u8>) -> Seq<
    char,
>;

/// Relies on the codec's constructors and TransactionEnvelope's
/// to_xdr_base64: the same throwaway envelope shape as `balance_envelope`,
/// calling `lastprice` on the oracle contract with one argument, the
/// two-element vector of the symbol `Stellar` and the asset's contract
/// address. Construction cannot fail: both symbols fit the 32-byte
/// limit and every container is under its bound.
#[verifier::external_body]
pub fn price_envelope_stellar(oracle_key: &[u8; 32], asset_key: &[u8; 32]) -> (r: String)
    ensures
        r@ == price_stellar_envelope_of(oracle_key@, asset_key@),
{
    let tag = ScVal::Symbol(ScSymbol("Stellar".as_bytes().to_vec().try_into().unwrap()));
    let asset = ScVal::Address(ScAddress::Contract(ContractId(stellar_xdr::curr::Hash(
        *asset_key,
    ))));
    let arg = ScVal::Vec(Some(vec![tag, asset].try_into().unwrap()));
    simulation_envelope(invoke_body(oracle_key, "lastprice", arg))
}

/// The base64 XDR of the throwaway simulation envelope for a price query
/// on an external asset symbol, as a function of the oracle key and the
/// symbol text.
pub uninterp spec fn price_other_envelope_of(oracle_key: Seq<u8>, symbol: Seq<char>) -> Seq<char>;

/// Relies on the codec's constructors and TransactionEnvelope's
/// to_xdr_base64: the same throwaway envelope shape, calling `lastprice`
/// on the oracle contract with one argument, the two-element vector of
/// the symbol `Other` and the asset symbol. The asset symbol is bounded
/// by ScSymbol's 32-byte limit, the one way construction can fail;
/// everything else is under its bound.
#[verifier::external_body]
pub fn price_envelope_other(oracle_key: &[u8; 32], symbol: &str) -> (r: Option<String>)
    ensures
        (r is Some) == (symbol.spec_bytes().len() <= 32),
        r matches Some(s) ==> s@ == price_other_envelope_of(oracle_key@, symbol@),
{
    let tag = ScVal::Symbol(ScSymbol("Other".as_bytes().to_vec().try_into().unwrap()));
    let sym = ScVal::Symbol(ScSymbol(symbol.as_bytes().to_vec().try_into().ok()?));
    let arg = ScVal::Vec(Some(vec![tag, sym].try_into().unwrap()));
    Some(simulation_envelope(invoke_body(oracle_key, "lastprice", arg)))
}

/// Relies on the operation constructors: an operation body invoking the
/// named function of the contract with the one argument and no
/// authorization. Shared by the envelope builders; their contracts state
/// its use.
#[verifier::external_body]
fn invoke_body(contract_key: &[u8; 32], function: &str, arg: ScVal) -> (r: OperationBody)
{
    let args = InvokeContractArgs {
        contract_address: ScAddress::Contract(ContractId(stellar_xdr::curr::Hash(*contract_key))),
        function_name: ScSymbol(function.as_bytes().to_vec().try_into().unwrap()),
        args: vec![arg].try_into().unwrap(),
    };
    OperationBody::InvokeHostFunction(InvokeHostFunctionOp {
        host_function: HostFunction::InvokeContract(args),
        auth: vec![].try_into().unwrap(),
    })
}

/// Relies on TransactionEnvelope::to_xdr_base64: wraps one operation
/// body in the fixed throwaway carrier and encodes it. Shared by the
/// three envelope builders above; their contracts state its use.
#[verifier::external_body]
fn simulation_envelope(body: OperationBody) -> (r: String)
{
    let tx = Transaction {
        source_account: MuxedAccount::Ed25519(Uint256([0u8; 32])),
        fee: 100,
        seq_num: SequenceNumber(0),
        cond: Preconditions::None,
        memo: Memo::None,
        operations: vec![Operation { source_account: None, body }].try_into().unwrap(),
        ext: TransactionExt::V0,
    };
    let sigs = vec![].try_into().unwrap();
    TransactionEnvelope::Tx(TransactionV1Envelope { tx, signatures: sigs }).to_xdr_base64(
        Limits::none(),
    ).unwrap()
}

/// Whether base64 text decodes to a contract value.
pub uninterp spec fn scval_decodes(x: Seq<char>) -> bool;

/// The decoder's error text when it does not.
pub uninterp spec fn scval_decode_error_of(x: Seq<char>) -> Seq<char>;

/// The halves of the decoded value when it is the signed 128-bit variant.
pub uninterp spec fn sim_i128_of(x: Seq<char>) -> Option<(i64, u64)>;

/// The halves of the decoded value when it is the unsigned 128-bit variant.
pub uninterp spec fn sim_u128_of(x: Seq<char>) -> Option<(u64, u64)>;

/// Whether the decoded value is a present map.
pub uninterp spec fn sim_is_map_of(x: Seq<char>) -> bool;

/// The halves of the last signed 128-bit entry under the symbol key
/// `price` of the decoded map, when there is one.
pub uninterp spec fn sim_map_price_of(x: Seq<char>) -> Option<(i64, u64)>;

/// The last 64-bit unsigned entry under the symbol key `timestamp` of
/// the decoded map, when there is one.
pub uninterp spec fn sim_map_timestamp_of(x: Seq<char>) -> Option<u64>;

/// The Debug rendering of the decoded value.
pub uninterp spec fn scval_rendered_of(x: Seq<char>) -> Seq<char>;

/// A classified simulation return value, as plain parts.
pub enum SimVal {
    /// The text did not decode; the decoder's error text.
    Undecodable { message: String },
    /// A signed 128-bit integer.
    I128 { hi: i64, lo: u64, rendered: String },
    /// An unsigned 128-bit integer.
    U128 { hi: u64, lo: u64, rendered: String },
    /// A map, with its `price` and `timestamp` entries when present.
    MapVal { price: Option<(i64, u64)>, timestamp: Option<u64>, rendered: String },
    /// Any other decoded shape.
    Other { rendered: String },
}

/// Relies on ScVal::from_xdr_base64 and the ScVal enum layout: decodes
/// and classifies a simulation return value. The map walk mirrors the
/// oracle's reply shape: over the entries in order, a symbol key `price`
/// with a signed 128-bit value or a symbol key `timestamp` with a 64-bit
/// value records that entry, the last occurrence winning.
#[verifier::external_body]
pub fn sim_value_view(b64: &str) -> (r: SimVal)
    ensures
        r matches SimVal::Undecodable { message } ==> !scval_decodes(b64@) && message@
            == scval_decode_error_of(b64@),
        !scval_decodes(b64@) ==> r is Undecodable,
        r matches SimVal::I128 { hi, lo, rendered } ==> sim_i128_of(b64@) == Some((hi, lo))
            && rendered@ == scval_rendered_of(b64@),
        sim_i128_of(b64@) is Some ==> r is I128,
        r matches SimVal::U128 { hi, lo, rendered } ==> sim_u128_of(b64@) == Some((hi, lo))
            && rendered@ == scval_rendered_of(b64@),
        sim_u128_of(b64@) is Some ==> r is U128,
        r matches SimVal::MapVal { price, timestamp, rendered } ==> sim_is_map_of(b64@) && price
            == sim_map_price_of(b64@) && timestamp == sim_map_timestamp_of(b64@) && rendered@
            == scval_rendered_of(b64@),
        sim_is_map_of(b64@) ==> r is MapVal,
        r matches SimVal::Other { rendered } ==> scval_decodes(b64@) && rendered@
            == scval_rendered_of(b64@),
{
    let v = match scval_decode(b64) {
        Err(message) => return SimVal::Undecodable { message },
        Ok(v) => v,
    };
    match &v {
        ScVal::I128(p) => SimVal::I128 { hi: p.hi, lo: p.lo, rendered: render_scval(&v) },
        ScVal::U128(p) => SimVal::U128 { hi: p.hi, lo: p.lo, rendered: render_scval(&v) },
        ScVal::Map(Some(m)) => {
            let (price, timestamp) = map_price_fields(m);
            SimVal::MapVal { price, timestamp, rendered: render_scval(&v) }
        },
        _ => SimVal::Other { rendered: render_scval(&v) },
    }
}

/// Relies on ScVal::from_xdr_base64 under a bounded depth; shared by the
/// classification above, whose contract states its use.
#[verifier::external_body]
fn scval_decode(b64: &str) -> (r: Result<ScVal, String>)
{
    match ScVal::from_xdr_base64(b64, Limits { depth: 500, len: usize::MAX }) {
        Ok(v) => Ok(v),
        Err(e) => Err(e.to_string()),
    }
}

/// Relies on the derived Debug rendering of a contract value; shared by
/// the classification above, whose contract states its use.
#[verifier::external_body]
fn render_scval(v: &ScVal) -> (r: String)
{
    format!("{:?}", v)
}

/// Relies on the ScVal enum layout: walks the map entries in order and
/// keeps the last signed 128-bit value under the symbol key `price` and
/// the last 64-bit value under `timestamp`; shared by the classification
/// above, whose contract states its use.
#[verifier::external_body]
fn map_price_fields(m: &ScMap) -> (r: (Option<(i64, u64)>, Option<u64>))
{
    let (mut price, mut timestamp) = (None, None);
    for e in m.0.iter() {
        let key = match &e.key {
            ScVal::Symbol(k) => k.0.as_vec().as_slice(),
            _ => continue,
        };
        match (&e.val, key) {
            (ScVal::I128(p), b"price") => price = Some((p.hi, p.lo)),
            (ScVal::U64(t), b"timestamp") => timestamp = Some(*t),
            _ => {},
        }
    }
    (price, timestamp)
}

} // verus!
