//! The three domain operations — fund, sign, broadcast — as the two halves
//! the caller glues together with one HTTP POST: `prepare_*` builds the call,
//! `decode_*` turns the response text into the typed result.

use vstd::prelude::*;
use vstd::string::StrSliceExecFns;

use crate::context::RpcCtx;
use crate::hexstr::bytes_of_hex;
use crate::hexstr::hex_of_bytes;
use crate::hexstr::lemma_hex_round_trip;
use crate::hexstr::hex_encode;
use crate::hexstr::hex_val_u8;
use crate::hexstr::is_hex_digit;
use crate::jsonstr::json_string;
use crate::jsonstr::json_string_lit;
use crate::response::RpcFailure;
use crate::response::decode_response;
use crate::response::response_outcome;
use crate::transport::PreparedRequest;
use crate::transport::prepare_request;
use crate::transport::prepared_ok;
use crate::tx::TransactionOrHex;
use crate::tx::tx_of_bytes;
use crate::tx::tx_or_hex_view;
use crate::tx::tx_to_hex;

verus! {

/// The parameter list of every operation: the transaction hex as one JSON
/// string.
pub open spec fn hex_params(t: Seq<char>) -> Seq<Seq<char>> {
    seq![json_string_lit(t)]
}

/// Builds the one-parameter call for `method` on the given transaction.
fn prepare_tx_request<'a>(ctx: &RpcCtx, method: &str, t: TransactionOrHex<'a>) -> (r:
    PreparedRequest)
    ensures
        prepared_ok(r, ctx, method@, hex_params(tx_or_hex_view(t))),
{
    let tx_hex = tx_to_hex(t);
    let param = json_string(tx_hex.as_str());
    let params = vec![param];
    let r = prepare_request(ctx, method, &params);
    proof {
        assert(params.deep_view() =~= hex_params(tx_or_hex_view(t)));
    }
    r
}

/// Builds the `fundrawtransaction` call for one transaction.
pub fn prepare_fund_request<'a>(ctx: &RpcCtx, t: TransactionOrHex<'a>) -> (r: PreparedRequest)
    ensures
        prepared_ok(r, ctx, "fundrawtransaction"@, hex_params(tx_or_hex_view(t))),
{
    prepare_tx_request(ctx, "fundrawtransaction", t)
}

/// Builds the `signrawtransactionwithwallet` call for one transaction.
pub fn prepare_sign_request<'a>(ctx: &RpcCtx, t: TransactionOrHex<'a>) -> (r: PreparedRequest)
    ensures
        prepared_ok(r, ctx, "signrawtransactionwithwallet"@, hex_params(tx_or_hex_view(t))),
{
    prepare_tx_request(ctx, "signrawtransactionwithwallet", t)
}

/// Builds the `sendrawtransaction` call for one transaction.
pub fn prepare_send_request<'a>(ctx: &RpcCtx, t: TransactionOrHex<'a>) -> (r: PreparedRequest)
    ensures
        prepared_ok(r, ctx, "sendrawtransaction"@, hex_params(tx_or_hex_view(t))),
{
    prepare_tx_request(ctx, "sendrawtransaction", t)
}

pub uninterp spec fn fund_hex_bytes_of(result_text: Seq<char>) -> Option<Vec<u8>>;

/// Relies on serde_json::from_str for
/// bitcoincore_rpc::json::FundRawTransactionResult (derived `Deserialize`
/// with a hex-encoded `hex` field): parsing is a function of the text alone;
/// only the raw transaction bytes are kept.
#[verifier::external_body]
fn fund_result_bytes(result_text: &str) -> (r: Option<Vec<u8>>)
    ensures
        r == fund_hex_bytes_of(result_text@),
{
    serde_json::from_str::<bitcoincore_rpc::json::FundRawTransactionResult>(
        result_text,
    ).ok().map(|p| p.hex)
}

pub uninterp spec fn sign_hex_bytes_of(result_text: Seq<char>) -> Option<Vec<u8>>;

/// Relies on serde_json::from_str for
/// bitcoincore_rpc::json::SignRawTransactionResult (derived `Deserialize`
/// with a hex-encoded `hex` field): parsing is a function of the text alone;
/// only the raw transaction bytes are kept.
#[verifier::external_body]
fn sign_result_bytes(result_text: &str) -> (r: Option<Vec<u8>>)
    ensures
        r == sign_hex_bytes_of(result_text@),
{
    serde_json::from_str::<bitcoincore_rpc::json::SignRawTransactionResult>(
        result_text,
    ).ok().map(|p| p.hex)
}

/// What the returned pair must satisfy, given the raw bytes the node declared:
/// the structured transaction is decoded from those bytes — never the
/// caller's input — and the hex string re-encodes the same bytes.
pub open spec fn tx_pair_outcome(
    bytes: Option<Vec<u8>>,
    r: Result<(String, bitcoin::Transaction), RpcFailure>,
) -> bool {
    match bytes {
        None => r == Err::<(String, bitcoin::Transaction), RpcFailure>(RpcFailure::Decode),
        Some(b) => match tx_of_bytes(b@) {
            None => r == Err::<(String, bitcoin::Transaction), RpcFailure>(RpcFailure::Decode),
            Some(t) => r matches Ok(p) && p.1 == t && p.0@ == hex_of_bytes(b@),
        },
    }
}

/// Turns the raw transaction bytes a result declared into the returned pair:
/// the node's bytes hex-encoded, and the transaction they decode to.
pub fn finish_tx_decode(bytes: Option<Vec<u8>>) -> (r: Result<
    (String, bitcoin::Transaction),
    RpcFailure,
>)
    ensures
        tx_pair_outcome(bytes, r),
{
    let b = match bytes {
        None => {
            return Err(RpcFailure::Decode);
        },
        Some(b) => b,
    };
    let t = match crate::tx::deserialize_tx(&b) {
        None => {
            return Err(RpcFailure::Decode);
        },
        Some(t) => t,
    };
    let actual_hex = hex_encode(b.as_slice());
    Ok((actual_hex, t))
}

/// Law: in any returned pair, the two representations agree — the hex string
/// decodes back to the node's bytes, and the structured transaction is the
/// decoding of those same bytes; neither can be a re-encoding of the caller's
/// input.
pub proof fn lemma_pair_coherent(bytes: Vec<u8>, p: (String, bitcoin::Transaction))
    requires
        tx_pair_outcome(Some(bytes), Ok(p)),
    ensures
        bytes_of_hex(p.0@) == bytes@,
        tx_of_bytes(bytes@) == Some(p.1),
{
    lemma_hex_round_trip(bytes@);
}

/// Decodes a `fundrawtransaction` response: the envelope's failures pass
/// through; a result must declare raw transaction bytes, which are returned
/// hex-encoded together with the transaction they decode to.
pub fn decode_fund_response(text: &str) -> (r: Result<
    (String, bitcoin::Transaction),
    RpcFailure,
>)
    ensures
        response_outcome(text@) matches Err(e) ==> r == Err::<
            (String, bitcoin::Transaction),
            RpcFailure,
        >(e),
        response_outcome(text@) matches Ok(rt) ==> tx_pair_outcome(fund_hex_bytes_of(rt@), r),
{
    let rt = match decode_response(text) {
        Err(e) => {
            return Err(e);
        },
        Ok(rt) => rt,
    };
    finish_tx_decode(fund_result_bytes(rt.as_str()))
}

/// Decodes a `signrawtransactionwithwallet` response, like
/// `decode_fund_response`.
pub fn decode_sign_response(text: &str) -> (r: Result<
    (String, bitcoin::Transaction),
    RpcFailure,
>)
    ensures
        response_outcome(text@) matches Err(e) ==> r == Err::<
            (String, bitcoin::Transaction),
            RpcFailure,
        >(e),
        response_outcome(text@) matches Ok(rt) ==> tx_pair_outcome(sign_hex_bytes_of(rt@), r),
{
    let rt = match decode_response(text) {
        Err(e) => {
            return Err(e);
        },
        Ok(rt) => rt,
    };
    finish_tx_decode(sign_result_bytes(rt.as_str()))
}

/// A transaction identifier in its conventional display form: 64 hex digits.
#[derive(Debug, Clone, PartialEq)]
pub struct TxId {
    pub hex: String,
}

/// A well-formed transaction identifier: 64 hex digits.
pub open spec fn txid_wf(t: TxId) -> bool {
    t.hex@.len() == 64 && forall|i: int| 0 <= i < 64 ==> is_hex_digit(#[trigger] t.hex@[i])
}

/// The result text of a broadcast: a JSON string of exactly 64 hex digits.
pub open spec fn is_txid_json(s: Seq<char>) -> bool {
    &&& s.len() == 66
    &&& s[0] == '"'
    &&& s[65] == '"'
    &&& forall|i: int| 1 <= i < 65 ==> is_hex_digit(#[trigger] s[i])
}

/// Reads a broadcast result as a transaction identifier: `None` exactly when
/// the result text is not a JSON string of 64 hex digits.
pub fn parse_txid_result(rt: &str) -> (r: Option<TxId>)
    ensures
        match r {
            Some(t) => is_txid_json(rt@) && t.hex@ == rt@.subrange(1, 65) && txid_wf(t),
            None => !is_txid_json(rt@),
        },
{
    if rt.unicode_len() != 66 {
        return None;
    }
    if rt.get_char(0) != '"' || rt.get_char(65) != '"' {
        return None;
    }
    let mut i: usize = 1;
    while i < 65
        invariant
            1 <= i <= 65,
            rt@.len() == 66,
            forall|j: int| 1 <= j < i ==> is_hex_digit(#[trigger] rt@[j]),
        decreases 65 - i,
    {
        if hex_val_u8(rt.get_char(i)) >= 16 {
            return None;
        }
        i = i + 1;
    }
    let mid = rt.substring_char(1, 65);
    let t = TxId { hex: mid.to_owned() };
    proof {
        assert forall|k: int| 0 <= k < 64 implies is_hex_digit(#[trigger] t.hex@[k]) by {
            assert(t.hex@[k] == rt@[k + 1]);
        }
    }
    Some(t)
}

/// Decodes a `sendrawtransaction` response: the envelope's failures pass
/// through; a result must be the broadcast transaction's identifier.
pub fn decode_send_response(text: &str) -> (r: Result<TxId, RpcFailure>)
    ensures
        response_outcome(text@) matches Err(e) ==> r == Err::<TxId, RpcFailure>(e),
        response_outcome(text@) matches Ok(rt) ==> match r {
            Ok(t) => is_txid_json(rt@) && t.hex@ == rt@.subrange(1, 65) && txid_wf(t),
            Err(e) => !is_txid_json(rt@) && e == RpcFailure::Decode,
        },
{
    let rt = match decode_response(text) {
        Err(e) => {
            return Err(e);
        },
        Ok(rt) => rt,
    };
    match parse_txid_result(rt.as_str()) {
        Some(t) => Ok(t),
        None => Err(RpcFailure::Decode),
    }
}

} // verus!
