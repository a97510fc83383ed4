//! Transactions in consensus-encoded form. The structured transaction value
//! belongs to the bitcoin crate and is carried through opaquely; this module
//! names its consensus encoding so that contracts can tie the hex strings the
//! node sends and receives to the structured values callers hold.

use vstd::prelude::*;

use crate::hexstr::hex_of_bytes;
use crate::hexstr::hex_encode;

verus! {

#[verifier::external_type_specification]
#[verifier::external_body]
pub struct ExTransaction(bitcoin::Transaction);

pub uninterp spec fn tx_consensus_bytes(tx: bitcoin::Transaction) -> Seq<u8>;

pub uninterp spec fn tx_of_bytes(bytes: Seq<u8>) -> Option<bitcoin::Transaction>;

/// Decoding reads through a reader capped at this many bytes, so only
/// encodings up to this length are promised to round-trip.
pub const TX_DECODE_CAP: usize = 4000000;

/// Relies on bitcoin::consensus::encode::serialize: the consensus encoding of
/// a transaction is a function of the transaction alone.
#[verifier::external_body]
pub(crate) fn serialize_tx(tx: &bitcoin::Transaction) -> (r: Vec<u8>)
    ensures
        r@ == tx_consensus_bytes(*tx),
{
    bitcoin::consensus::encode::serialize(tx)
}

/// Relies on bitcoin::consensus::encode::deserialize: decoding is a function
/// of the bytes alone, and inverts `serialize` on any encoding within the
/// reader cap (a transaction without inputs takes the segwit form on both
/// sides, so the marker stays unambiguous).
#[verifier::external_body]
pub(crate) fn deserialize_tx(bytes: &Vec<u8>) -> (r: Option<bitcoin::Transaction>)
    ensures
        r == tx_of_bytes(bytes@),
        bytes@.len() <= TX_DECODE_CAP ==> forall|t: bitcoin::Transaction|
            bytes@ == tx_consensus_bytes(t) ==> r == Some(t),
{
    bitcoin::consensus::encode::deserialize::<bitcoin::Transaction>(bytes.as_slice()).ok()
}

/// A transaction for one call: either already hex-encoded, or structured;
/// callers that hold the hex avoid a redundant encoding.
pub enum TransactionOrHex<'a> {
    Hex(String),
    Transaction(&'a bitcoin::Transaction),
}

/// The transaction hex an input stands for.
pub open spec fn tx_or_hex_view<'a>(t: TransactionOrHex<'a>) -> Seq<char> {
    match t {
        TransactionOrHex::Hex(h) => h@,
        TransactionOrHex::Transaction(tx) => hex_of_bytes(tx_consensus_bytes(*tx)),
    }
}

/// Normalizes an input to transaction hex: a structured transaction is
/// consensus-encoded, a hex string passes through unchanged.
pub fn tx_to_hex<'a>(t: TransactionOrHex<'a>) -> (r: String)
    ensures
        r@ == tx_or_hex_view(t),
{
    match t {
        TransactionOrHex::Hex(h) => h,
        TransactionOrHex::Transaction(tx) => {
            let bytes = serialize_tx(tx);
            hex_encode(bytes.as_slice())
        },
    }
}

/// Law: consensus decoding inverts consensus encoding, for every transaction
/// whose encoding fits the decoder's reader cap.
pub fn reencode_transaction(tx: &bitcoin::Transaction) -> (r: Option<bitcoin::Transaction>)
    ensures
        tx_consensus_bytes(*tx).len() <= TX_DECODE_CAP ==> r == Some(*tx),
{
    let bytes = serialize_tx(tx);
    if bytes.len() <= TX_DECODE_CAP {
        deserialize_tx(&bytes)
    } else {
        None
    }
}

} // verus!
