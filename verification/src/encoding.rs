//! Text and wire forms: outpoints from text, transactions to bytes, bytes to
//! hexadecimal.

use vstd::prelude::*;
use std::str::FromStr;
use miniscript::bitcoin::absolute::LockTime;
use miniscript::bitcoin::consensus::serialize;
use miniscript::bitcoin::hashes::Hash as _;
use miniscript::bitcoin::hex::{Case, DisplayHex};
use miniscript::bitcoin::transaction::Version;
use miniscript::bitcoin::{Amount, Sequence, Transaction, TxIn, TxOut, Txid};
use crate::transaction::{witnesses_fit, OutPoint, TransactionView};

verus! {

/// The outpoint that `text` denotes, written as the transaction id in
/// hexadecimal, a colon and the output's index; `None` where `text` is not of
/// that form.
pub uninterp spec fn outpoint_of_text(text: Seq<char>) -> Option<OutPoint>;

/// The consensus encoding of a transaction.
pub uninterp spec fn consensus_encoding(tx: TransactionView) -> Seq<u8>;

/// The hexadecimal digit for a number below sixteen.
pub open spec fn hex_digit(n: int) -> char {
    seq!['0', '1', '2', '3', '4', '5', '6', '7', '8', '9', 'a', 'b', 'c', 'd', 'e', 'f'][n]
}

/// `bytes` in hexadecimal: two lower-case digits for each byte, the high half
/// first.
pub open spec fn lower_hex(bytes: Seq<u8>) -> Seq<char> {
    Seq::new(
        2 * bytes.len(),
        |i: int|
            hex_digit(
                if i % 2 == 0 {
                    bytes[i / 2] as int / 16
                } else {
                    bytes[i / 2] as int % 16
                },
            ),
    )
}

/// `FromStr` of the outside crate's `OutPoint`, with the transaction id taken
/// as its bytes.
#[verifier::external_body]
pub(crate) fn outpoint_from_text(text: &str) -> (outpoint: Option<OutPoint>)
    ensures
        outpoint == outpoint_of_text(text@),
{
    match miniscript::bitcoin::OutPoint::from_str(text) {
        Ok(outpoint) => Some(OutPoint { txid: outpoint.txid.to_byte_array(), vout: outpoint.vout }),
        Err(_) => None,
    }
}

/// `consensus::serialize` of the outside crate, on the transaction that holds
/// what `tx` holds. The outside witness keeps the place of each item as a
/// 32-bit number and panics on one that does not fit, so the witnesses are to
/// be small enough for that.
#[verifier::external_body]
pub(crate) fn consensus_serialize(tx: &crate::transaction::Transaction) -> (bytes: Vec<u8>)
    requires
        witnesses_fit(tx@),
    ensures
        bytes@ == consensus_encoding(tx@),
{
    let input = tx.input.iter().map(|i| TxIn {
        previous_output: miniscript::bitcoin::OutPoint::new(Txid::from_byte_array(i.previous_output.txid), i.previous_output.vout),
        script_sig: i.script_sig.clone().into(),
        sequence: Sequence(i.sequence),
        witness: i.witness.as_slice().into(),
    }).collect();
    let output = tx.output.iter().map(|o| TxOut {
        value: Amount::from_sat(o.value),
        script_pubkey: o.script_pubkey.clone().into(),
    }).collect();
    let version = Version(tx.version);
    let lock_time = LockTime::from_consensus(tx.lock_time);
    serialize(&Transaction { version, lock_time, input, output })
}

/// `DisplayHex::to_hex_string` of the outside crate, in lower case: each byte
/// becomes its two digits.
#[verifier::external_body]
pub(crate) fn to_lower_hex(bytes: &Vec<u8>) -> (text: String)
    ensures
        text@ == lower_hex(bytes@),
{
    bytes.to_hex_string(Case::Lower)
}

} // verus!
