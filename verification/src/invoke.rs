//! The invocation builder: assembling the simulated contract calls for
//! balance and price queries, routing price queries to the right oracle
//! contract, and interpreting what a simulation returned.

use vstd::prelude::*;
use vstd::string::StringSliceAdditionalSpecFns;
use vstd::utf8::encode_utf8;
use vstd::utf8::is_ascii_chars;

use crate::jsonio::{
    sim_error_of, sim_has_result_of, sim_response_extract, sim_result_error_of,
    sim_result_xdr_of, sim_valid_of,
};
use crate::strops::str_eq;
use crate::textio::{upper_of, uppercase};
use crate::xdrio::{
    account_key_of, account_strkey_decode, balance_envelope, balance_envelope_of,
    contract_key_of, contract_strkey_decode, price_envelope_other, price_envelope_stellar,
    price_other_envelope_of, price_stellar_envelope_of, scval_decode_error_of, scval_decodes,
    scval_rendered_of, sim_i128_of, sim_is_map_of, sim_map_price_of, sim_map_timestamp_of,
    sim_u128_of, sim_value_view, SimVal,
};

verus! {

/// How many decimal places the price oracle's values carry.
pub const REFLECTOR_DECIMALS: u32 = 14;

/// The oracle contract serving Stellar-native assets, and the default.
pub fn reflector_stellar_contract() -> (r: &'static str)
    ensures
        r@ == "CALI2BYU2JE6WVRUFYTS6MSBNEHGJ35P4AVCZYF3B6QOE3QKOB2PLE6M"@,
{
    "CALI2BYU2JE6WVRUFYTS6MSBNEHGJ35P4AVCZYF3B6QOE3QKOB2PLE6M"
}

/// The oracle contract serving crypto assets.
pub fn reflector_crypto_contract() -> (r: &'static str)
    ensures
        r@ == "CAFJZQWSED6YAWZU3GWRTOCNPPCGBN32L7QV43XX5LZLFTK6JLN34DLN"@,
{
    "CAFJZQWSED6YAWZU3GWRTOCNPPCGBN32L7QV43XX5LZLFTK6JLN34DLN"
}

/// The oracle contract serving fiat currencies and metals.
pub fn reflector_fiat_contract() -> (r: &'static str)
    ensures
        r@ == "CBKGPWGKSKZF52CFHMTRR23TBWTPMRDIYZ4O2P5VS65BMHYH4DXMCJZC"@,
{
    "CBKGPWGKSKZF52CFHMTRR23TBWTPMRDIYZ4O2P5VS65BMHYH4DXMCJZC"
}

/// The crypto-asset symbols routed to the crypto oracle.
pub open spec fn is_crypto_symbol(s: Seq<char>) -> bool {
    s == "BTC"@ || s == "ETH"@ || s == "USDT"@ || s == "XRP"@ || s == "SOL"@ || s == "USDC"@ || s
        == "ADA"@ || s == "AVAX"@ || s == "DOT"@ || s == "MATIC"@ || s == "LINK"@ || s == "DAI"@
        || s == "ATOM"@ || s == "XLM"@ || s == "UNI"@ || s == "EURC"@
}

/// The fiat and metal symbols routed to the fiat oracle.
pub open spec fn is_fiat_symbol(s: Seq<char>) -> bool {
    s == "EUR"@ || s == "GBP"@ || s == "CAD"@ || s == "BRL"@ || s == "JPY"@ || s == "CNY"@ || s
        == "MXN"@ || s == "KRW"@ || s == "TRY"@ || s == "ARS"@ || s == "PEN"@ || s == "VES"@ || s
        == "CLP"@ || s == "CRC"@ || s == "CDF"@ || s == "COP"@ || s == "HKD"@ || s == "INR"@ || s
        == "NGN"@ || s == "PHP"@ || s == "RUB"@ || s == "ZAR"@ || s == "XAU"@
}

/// Which oracle an asset symbol routes to: its upper-cased form decides
/// against the two lists, anything else to the default oracle.
pub open spec fn symbol_oracle_of(s: Seq<char>) -> Seq<char> {
    if is_crypto_symbol(upper_of(s)) {
        "CAFJZQWSED6YAWZU3GWRTOCNPPCGBN32L7QV43XX5LZLFTK6JLN34DLN"@
    } else if is_fiat_symbol(upper_of(s)) {
        "CBKGPWGKSKZF52CFHMTRR23TBWTPMRDIYZ4O2P5VS65BMHYH4DXMCJZC"@
    } else {
        "CALI2BYU2JE6WVRUFYTS6MSBNEHGJ35P4AVCZYF3B6QOE3QKOB2PLE6M"@
    }
}

fn is_crypto_asset(s: &str) -> (r: bool)
    ensures
        r == is_crypto_symbol(s@),
{
    str_eq(s, "BTC") || str_eq(s, "ETH") || str_eq(s, "USDT") || str_eq(s, "XRP") || str_eq(
        s,
        "SOL",
    ) || str_eq(s, "USDC") || str_eq(s, "ADA") || str_eq(s, "AVAX") || str_eq(s, "DOT") || str_eq(
        s,
        "MATIC",
    ) || str_eq(s, "LINK") || str_eq(s, "DAI") || str_eq(s, "ATOM") || str_eq(s, "XLM") || str_eq(
        s,
        "UNI",
    ) || str_eq(s, "EURC")
}

fn is_fiat_asset(s: &str) -> (r: bool)
    ensures
        r == is_fiat_symbol(s@),
{
    str_eq(s, "EUR") || str_eq(s, "GBP") || str_eq(s, "CAD") || str_eq(s, "BRL") || str_eq(
        s,
        "JPY",
    ) || str_eq(s, "CNY") || str_eq(s, "MXN") || str_eq(s, "KRW") || str_eq(s, "TRY") || str_eq(
        s,
        "ARS",
    ) || str_eq(s, "PEN") || str_eq(s, "VES") || str_eq(s, "CLP") || str_eq(s, "CRC") || str_eq(
        s,
        "CDF",
    ) || str_eq(s, "COP") || str_eq(s, "HKD") || str_eq(s, "INR") || str_eq(s, "NGN") || str_eq(
        s,
        "PHP",
    ) || str_eq(s, "RUB") || str_eq(s, "ZAR") || str_eq(s, "XAU")
}

/// Picks the oracle contract for an asset symbol, exactly as
/// `symbol_oracle_of` states. On ASCII input the routing is
/// case-insensitive: the upper-cased symbol routes the same way.
pub fn get_oracle_for_asset(asset: &str) -> (r: &'static str)
    ensures
        r@ == symbol_oracle_of(asset@),
        is_ascii_chars(asset@) ==> symbol_oracle_of(upper_of(asset@)) == symbol_oracle_of(asset@),
{
    let up = uppercase(asset);
    if is_crypto_asset(up.as_str()) {
        reflector_crypto_contract()
    } else if is_fiat_asset(up.as_str()) {
        reflector_fiat_contract()
    } else {
        reflector_stellar_contract()
    }
}

/// Whether an asset input has the shape of a contract address: 56
/// characters beginning with `C`.
pub open spec fn looks_like_contract(s: Seq<char>) -> bool {
    s.len() == 56 && s[0] == 'C'
}

/// Which oracle contract a price query for `asset` is sent to.
pub open spec fn oracle_contract_of(asset: Seq<char>) -> Seq<char> {
    if looks_like_contract(asset) {
        "CALI2BYU2JE6WVRUFYTS6MSBNEHGJ35P4AVCZYF3B6QOE3QKOB2PLE6M"@
    } else {
        symbol_oracle_of(asset)
    }
}

/// Why an invocation could not be built; all of these arise before any
/// network traffic.
#[derive(Debug, PartialEq, Eq, Structural)]
pub enum InvokeError {
    /// The account address is not a valid account strkey.
    InvalidAddress,
    /// The token or asset contract address is not a valid contract strkey.
    InvalidContract,
    /// The oracle contract address did not decode.
    InvalidOracleContract,
    /// The asset symbol exceeds the symbol length limit.
    SymbolTooLong,
}

impl InvokeError {
    /// Renders the failure as text.
    pub fn message(&self) -> (r: String)
        ensures
            match *self {
                InvokeError::InvalidAddress => r@ == "Invalid Stellar address format"@,
                InvokeError::InvalidContract => r@ == "Invalid contract address format"@,
                InvokeError::InvalidOracleContract => r@
                    == "Invalid Reflector contract address"@,
                InvokeError::SymbolTooLong => r@ == "Asset symbol too long"@,
            },
    {
        match self {
            InvokeError::InvalidAddress => "Invalid Stellar address format".to_owned(),
            InvokeError::InvalidContract => "Invalid contract address format".to_owned(),
            InvokeError::InvalidOracleContract => "Invalid Reflector contract address".to_owned(),
            InvokeError::SymbolTooLong => "Asset symbol too long".to_owned(),
        }
    }
}

/// Builds the base64 envelope of a balance query: the throwaway
/// simulation envelope calling the token contract's `balance` function
/// on the given account, exactly `balance_envelope_of` the two decoded
/// keys.
///
/// An invalid account address is rejected first, then an invalid token
/// contract; any decodable pair yields the envelope.
pub fn build_balance_envelope(address: &str, token_contract: &str) -> (r: Result<
    String,
    InvokeError,
>)
    ensures
        account_key_of(address@) is None <==> r == Err::<String, InvokeError>(
            InvokeError::InvalidAddress,
        ),
        account_key_of(address@) is Some && contract_key_of(token_contract@) is None <==> r
            == Err::<String, InvokeError>(InvokeError::InvalidContract),
        account_key_of(address@) matches Some(a) ==> (contract_key_of(token_contract@)
            matches Some(c) ==> (r matches Ok(s) && s@ == balance_envelope_of(a, c))),
{
    let address_bytes = match account_strkey_decode(address) {
        None => {
            return Err(InvokeError::InvalidAddress);
        },
        Some(b) => b,
    };
    let contract_bytes = match contract_strkey_decode(token_contract) {
        None => {
            return Err(InvokeError::InvalidContract);
        },
        Some(b) => b,
    };
    Ok(balance_envelope(&address_bytes, &contract_bytes))
}

/// A built price query: the envelope to simulate, the oracle contract it
/// is sent to, and whether the asset was taken as a Stellar contract.
#[derive(Debug)]
pub struct PriceQuery {
    pub envelope_b64: String,
    pub oracle_contract: String,
    pub is_stellar_asset: bool,
}

/// Builds a price query: the throwaway simulation envelope calling the
/// routed oracle's `lastprice` function with the asset as its argument.
///
/// An input shaped like a contract address is taken as a Stellar asset
/// and must decode; its argument is the tagged pair of `Stellar` and the
/// contract address. Anything else is an external symbol, upper-cased,
/// bounded by the symbol limit, and sent as the tagged pair of `Other`
/// and that symbol. The oracle is selected exactly as
/// `oracle_contract_of` states, and each validation failure is the one
/// error stated for it.
pub fn build_price_query(asset: &str) -> (r: Result<PriceQuery, InvokeError>)
    ensures
        r matches Ok(q) ==> q.oracle_contract@ == oracle_contract_of(asset@)
            && q.is_stellar_asset == looks_like_contract(asset@),
        looks_like_contract(asset@) && contract_key_of(asset@) is None <==> r == Err::<
            PriceQuery,
            InvokeError,
        >(InvokeError::InvalidContract),
        r == Err::<PriceQuery, InvokeError>(InvokeError::SymbolTooLong) <==> (
        !looks_like_contract(asset@) && encode_utf8(upper_of(asset@)).len() > 32),
        contract_key_of(oracle_contract_of(asset@)) matches Some(o) ==> ((looks_like_contract(
            asset@,
        ) ==> (contract_key_of(asset@) matches Some(a) ==> (r matches Ok(q) && q.envelope_b64@
            == price_stellar_envelope_of(o, a)))) && ((!looks_like_contract(asset@)
            && encode_utf8(upper_of(asset@)).len() <= 32) ==> (r matches Ok(q) && q.envelope_b64@
            == price_other_envelope_of(o, upper_of(asset@))))),
        ((looks_like_contract(asset@) ==> contract_key_of(asset@) is Some) && (
        !looks_like_contract(asset@) ==> encode_utf8(upper_of(asset@)).len() <= 32)
            && contract_key_of(oracle_contract_of(asset@)) is None) ==> r == Err::<
            PriceQuery,
            InvokeError,
        >(InvokeError::InvalidOracleContract),
{
    let n = asset.unicode_len();
    let is_contract = n == 56 && asset.get_char(0) == 'C';
    if is_contract {
        let asset_key = match contract_strkey_decode(asset) {
            None => {
                return Err(InvokeError::InvalidContract);
            },
            Some(b) => b,
        };
        let oracle = reflector_stellar_contract();
        proof {
            assert(oracle@ == oracle_contract_of(asset@));
        }
        let oracle_key = match contract_strkey_decode(oracle) {
            None => {
                return Err(InvokeError::InvalidOracleContract);
            },
            Some(b) => b,
        };
        Ok(
            PriceQuery {
                envelope_b64: price_envelope_stellar(&oracle_key, &asset_key),
                oracle_contract: oracle.to_owned(),
                is_stellar_asset: true,
            },
        )
    } else {
        let up = uppercase(asset);
        if up.as_str().as_bytes().len() > 32 {
            return Err(InvokeError::SymbolTooLong);
        }
        let oracle = get_oracle_for_asset(asset);
        proof {
            assert(oracle@ == oracle_contract_of(asset@));
        }
        let oracle_key = match contract_strkey_decode(oracle) {
            None => {
                return Err(InvokeError::InvalidOracleContract);
            },
            Some(b) => b,
        };
        let envelope = match price_envelope_other(&oracle_key, up.as_str()) {
            None => {
                proof {
                    assert(false);
                }
                return Err(InvokeError::SymbolTooLong);
            },
            Some(s) => s,
        };
        Ok(
            PriceQuery {
                envelope_b64: envelope,
                oracle_contract: oracle.to_owned(),
                is_stellar_asset: false,
            },
        )
    }
}

/// Joins the two halves of a signed 128-bit value: the result is exactly
/// `hi * 2^64 + lo`.
pub fn combine_i128(hi: i64, lo: u64) -> (r: i128)
    ensures
        r == hi as int * 0x1_0000_0000_0000_0000 + lo as int,
{
    (hi as i128) * 0x1_0000_0000_0000_0000i128 + (lo as i128)
}

/// Joins the two halves of an unsigned 128-bit value: the result is
/// exactly `hi * 2^64 + lo`.
pub fn combine_u128(hi: u64, lo: u64) -> (r: u128)
    ensures
        r == hi as int * 0x1_0000_0000_0000_0000 + lo as int,
{
    (hi as u128) * 0x1_0000_0000_0000_0000u128 + (lo as u128)
}

/// A transport-level failure of a simulation query.
#[derive(Debug, PartialEq, Eq, Structural)]
pub enum SimFailure {
    /// The response body is not valid JSON.
    ParseResponse,
    /// The response reported an RPC-level error.
    RpcError,
    /// The response carries no result.
    NoResult,
}

/// What a balance simulation returned.
#[derive(Debug)]
pub enum BalanceOutcome {
    /// A signed 128-bit amount in stroops.
    AmountSigned { raw: i128 },
    /// An unsigned 128-bit amount in stroops.
    AmountUnsigned { raw: u128 },
    /// A decodable value of another shape, rendered.
    NonNumeric { rendered: String },
    /// A return value that did not decode, kept raw with the decoder's text.
    Undecodable { raw_xdr: String, message: String },
    /// A response without a return value.
    NoResultXdr,
}

/// What a price simulation returned.
#[derive(Debug)]
pub enum PriceOutcome {
    /// A price and its timestamp.
    Price { raw: i128, timestamp: u64 },
    /// The contract execution failed; the reported error, rendered.
    ExecutionError { contract_error: String },
    /// A decodable value of another shape, rendered.
    UnexpectedShape { rendered: String },
    /// A return value that did not decode, kept raw with the decoder's text.
    Undecodable { raw_xdr: String, message: String },
    /// A response without a usable price and timestamp.
    NoResultXdr,
}

/// Interprets a balance simulation response, as the clauses state: the
/// transport-level failures are errors; past them, a missing return
/// value, a value that does not decode, a 128-bit amount and any other
/// shape each soften into their own success outcome, so a decode failure
/// never fails hard.
pub fn interpret_balance_response(body: &str) -> (r: Result<BalanceOutcome, SimFailure>)
    ensures
        (!sim_valid_of(body@)) <==> r == Err::<BalanceOutcome, SimFailure>(
            SimFailure::ParseResponse,
        ),
        (sim_valid_of(body@) && sim_error_of(body@)) <==> r == Err::<BalanceOutcome, SimFailure>(
            SimFailure::RpcError,
        ),
        (sim_valid_of(body@) && !sim_error_of(body@) && !sim_has_result_of(body@)) <==> r == Err::<
            BalanceOutcome,
            SimFailure,
        >(SimFailure::NoResult),
        (sim_valid_of(body@) && !sim_error_of(body@) && sim_has_result_of(body@)
            && sim_result_xdr_of(body@) is None) ==> (r matches Ok(o) && o is NoResultXdr),
        sim_result_xdr_of(body@) matches Some(x) ==> ((sim_valid_of(body@) && !sim_error_of(body@)
            && sim_has_result_of(body@)) ==> ((!scval_decodes(x) ==> (r matches Ok(o)
            && o matches BalanceOutcome::Undecodable { raw_xdr, message } && raw_xdr@ == x
            && message@ == scval_decode_error_of(x))) && (sim_i128_of(x) matches Some((hi, lo))
            ==> (r matches Ok(o) && o matches BalanceOutcome::AmountSigned { raw } && raw
            == hi as int * 0x1_0000_0000_0000_0000 + lo as int)) && (sim_u128_of(x) matches Some(
            (hi, lo),
        ) ==> (r matches Ok(o) && o matches BalanceOutcome::AmountUnsigned { raw } && raw
            == hi as int * 0x1_0000_0000_0000_0000 + lo as int)) && ((scval_decodes(x)
            && sim_i128_of(x) is None && sim_u128_of(x) is None) ==> (r matches Ok(o)
            && o matches BalanceOutcome::NonNumeric { rendered } && rendered@
            == scval_rendered_of(x))))),
{
    let resp = sim_response_extract(body);
    if !resp.valid {
        return Err(SimFailure::ParseResponse);
    }
    if resp.reported_error {
        return Err(SimFailure::RpcError);
    }
    if !resp.has_result {
        return Err(SimFailure::NoResult);
    }
    let xdr = match resp.result_xdr {
        None => {
            return Ok(BalanceOutcome::NoResultXdr);
        },
        Some(x) => x,
    };
    match sim_value_view(xdr.as_str()) {
        SimVal::Undecodable { message } => Ok(BalanceOutcome::Undecodable { raw_xdr: xdr, message }),
        SimVal::I128 { hi, lo, rendered: _ } => Ok(
            BalanceOutcome::AmountSigned { raw: combine_i128(hi, lo) },
        ),
        SimVal::U128 { hi, lo, rendered: _ } => Ok(
            BalanceOutcome::AmountUnsigned { raw: combine_u128(hi, lo) },
        ),
        SimVal::MapVal { price: _, timestamp: _, rendered } => Ok(
            BalanceOutcome::NonNumeric { rendered },
        ),
        SimVal::Other { rendered } => Ok(BalanceOutcome::NonNumeric { rendered }),
    }
}

/// Interprets a price simulation response, as the clauses state: the
/// transport-level failures are errors; past them, a reported execution
/// error, a missing return value, a value that does not decode, a map
/// with both `price` and `timestamp`, a map missing one, and any other
/// shape each soften into their own success outcome.
pub fn interpret_price_response(body: &str) -> (r: Result<PriceOutcome, SimFailure>)
    ensures
        (!sim_valid_of(body@)) <==> r == Err::<PriceOutcome, SimFailure>(SimFailure::ParseResponse),
        (sim_valid_of(body@) && sim_error_of(body@)) <==> r == Err::<PriceOutcome, SimFailure>(
            SimFailure::RpcError,
        ),
        (sim_valid_of(body@) && !sim_error_of(body@) && !sim_has_result_of(body@)) <==> r == Err::<
            PriceOutcome,
            SimFailure,
        >(SimFailure::NoResult),
        sim_result_error_of(body@) matches Some(er) ==> ((sim_valid_of(body@) && !sim_error_of(
            body@,
        ) && sim_has_result_of(body@)) ==> (r matches Ok(o)
            && o matches PriceOutcome::ExecutionError { contract_error } && contract_error@
            == er)),
        (sim_valid_of(body@) && !sim_error_of(body@) && sim_has_result_of(body@)
            && sim_result_error_of(body@) is None && sim_result_xdr_of(body@) is None) ==> (
        r matches Ok(o) && o is NoResultXdr),
        sim_result_xdr_of(body@) matches Some(x) ==> ((sim_valid_of(body@) && !sim_error_of(body@)
            && sim_has_result_of(body@) && sim_result_error_of(body@) is None) ==> ((
        !scval_decodes(x) ==> (r matches Ok(o) && o matches PriceOutcome::Undecodable {
            raw_xdr,
            message,
        } && raw_xdr@ == x && message@ == scval_decode_error_of(x))) && (sim_map_price_of(x)
            matches Some((hi, lo)) ==> (sim_map_timestamp_of(x) matches Some(ts) ==> (
        sim_is_map_of(x) ==> (r matches Ok(o) && o matches PriceOutcome::Price { raw, timestamp }
            && raw == hi as int * 0x1_0000_0000_0000_0000 + lo as int && timestamp == ts)))) && ((
        sim_is_map_of(x) && (sim_map_price_of(x) is None || sim_map_timestamp_of(x) is None)) ==> (
        r matches Ok(o) && o is NoResultXdr)) && ((scval_decodes(x) && !sim_is_map_of(x)) ==> (
        r matches Ok(o) && o matches PriceOutcome::UnexpectedShape { rendered } && rendered@
            == scval_rendered_of(x))))),
{
    let resp = sim_response_extract(body);
    if !resp.valid {
        return Err(SimFailure::ParseResponse);
    }
    if resp.reported_error {
        return Err(SimFailure::RpcError);
    }
    if !resp.has_result {
        return Err(SimFailure::NoResult);
    }
    match resp.result_error {
        Some(er) => {
            return Ok(PriceOutcome::ExecutionError { contract_error: er });
        },
        None => {},
    }
    let xdr = match resp.result_xdr {
        None => {
            return Ok(PriceOutcome::NoResultXdr);
        },
        Some(x) => x,
    };
    match sim_value_view(xdr.as_str()) {
        SimVal::Undecodable { message } => Ok(PriceOutcome::Undecodable { raw_xdr: xdr, message }),
        SimVal::MapVal { price, timestamp, rendered: _ } => match (price, timestamp) {
            (Some((hi, lo)), Some(ts)) => Ok(
                PriceOutcome::Price { raw: combine_i128(hi, lo), timestamp: ts },
            ),
            _ => Ok(PriceOutcome::NoResultXdr),
        },
        SimVal::I128 { hi: _, lo: _, rendered } => Ok(PriceOutcome::UnexpectedShape { rendered }),
        SimVal::U128 { hi: _, lo: _, rendered } => Ok(PriceOutcome::UnexpectedShape { rendered }),
        SimVal::Other { rendered } => Ok(PriceOutcome::UnexpectedShape { rendered }),
    }
}

} // verus!
