//! The spending transaction and its encoding.

use vstd::prelude::*;
use crate::address::{address_on_network, address_script, Address};
use crate::encoding::{consensus_encoding, consensus_serialize, lower_hex, to_lower_hex};
use crate::network::NETWORK;
use crate::script::{csv2_script, csv2_script_bytes, lemma_timelock_script};
use crate::sequence::{csv2_sequence, flagged_sequence};

verus! {

/// A reference to an output of an earlier transaction.
#[derive(Clone, Copy, Debug, PartialEq, Eq)]
pub struct OutPoint {
    /// The earlier transaction's id, in the byte order of the wire.
    pub txid: [u8; 32],
    /// The output's index in that transaction.
    pub vout: u32,
}

/// A transaction input.
#[derive(Debug, PartialEq, Eq)]
pub struct TxIn {
    /// The output that is spent.
    pub previous_output: OutPoint,
    /// The signature script.
    pub script_sig: Vec<u8>,
    /// The sequence number.
    pub sequence: u32,
    /// The witness stack, bottom first.
    pub witness: Vec<Vec<u8>>,
}

/// A transaction output.
#[derive(Debug, PartialEq, Eq)]
pub struct TxOut {
    /// The amount in satoshis.
    pub value: u64,
    /// The script that locks the amount.
    pub script_pubkey: Vec<u8>,
}

/// A transaction.
#[derive(Debug, PartialEq, Eq)]
pub struct Transaction {
    /// The version.
    pub version: i32,
    /// The absolute lock time.
    pub lock_time: u32,
    /// The inputs.
    pub input: Vec<TxIn>,
    /// The outputs.
    pub output: Vec<TxOut>,
}

/// What an input holds.
pub struct TxInView {
    pub previous_output: OutPoint,
    pub script_sig: Seq<u8>,
    pub sequence: u32,
    pub witness: Seq<Seq<u8>>,
}

/// What an output holds.
pub struct TxOutView {
    pub value: u64,
    pub script_pubkey: Seq<u8>,
}

/// What a transaction holds.
pub struct TransactionView {
    pub version: i32,
    pub lock_time: u32,
    pub input: Seq<TxInView>,
    pub output: Seq<TxOutView>,
}

impl View for TxIn {
    type V = TxInView;

    open spec fn view(&self) -> TxInView {
        TxInView {
            previous_output: self.previous_output,
            script_sig: self.script_sig@,
            sequence: self.sequence,
            witness: self.witness@.map_values(|item: Vec<u8>| item@),
        }
    }
}

impl View for TxOut {
    type V = TxOutView;

    open spec fn view(&self) -> TxOutView {
        TxOutView { value: self.value, script_pubkey: self.script_pubkey@ }
    }
}

impl View for Transaction {
    type V = TransactionView;

    open spec fn view(&self) -> TransactionView {
        TransactionView {
            version: self.version,
            lock_time: self.lock_time,
            input: self.input@.map_values(|input: TxIn| input@),
            output: self.output@.map_values(|output: TxOut| output@),
        }
    }
}

/// The room that a witness takes while it is encoded: for each item its
/// bytes, and nine more for its length.
pub open spec fn witness_size(witness: Seq<Seq<u8>>) -> nat
    decreases witness.len(),
{
    if witness.len() == 0 {
        0
    } else {
        witness_size(witness.drop_last()) + witness.last().len() + 9
    }
}

/// Every input's witness can be encoded: the encoder counts the place of each
/// item in 32 bits.
pub open spec fn witnesses_fit(tx: TransactionView) -> bool {
    forall|i: int|
        0 <= i < tx.input.len() ==> witness_size(#[trigger] tx.input[i].witness) <= 0xffff_ffff
}

impl Transaction {
    /// The consensus encoding of the transaction in lower-case hexadecimal.
    pub fn to_hex(&self) -> (text: String)
        requires
            witnesses_fit(self@),
        ensures
            text@ == lower_hex(consensus_encoding(self@)),
    {
        let bytes = consensus_serialize(self);
        to_lower_hex(&bytes)
    }
}

/// The transaction that spends `outpoint` to the script `script_pubkey` once
/// `timelock` blocks have passed: version 2, no absolute lock time, one input
/// and one output. The input carries no signature script, the flagged
/// sequence number and, as its whole witness, the witness script.
pub open spec fn spend_transaction(
    outpoint: OutPoint,
    timelock: u16,
    amount: u64,
    script_pubkey: Seq<u8>,
) -> TransactionView {
    TransactionView {
        version: 2,
        lock_time: 0,
        input: seq![
            TxInView {
                previous_output: outpoint,
                script_sig: Seq::empty(),
                sequence: flagged_sequence(timelock),
                witness: seq![csv2_script_bytes(flagged_sequence(timelock))],
            },
        ],
        output: seq![TxOutView { value: amount, script_pubkey }],
    }
}

/// The spending transaction has one witness of one item of five bytes, which
/// can be encoded.
pub proof fn lemma_spend_fits(outpoint: OutPoint, timelock: u16, amount: u64, script_pubkey: Seq<u8>)
    ensures
        witnesses_fit(spend_transaction(outpoint, timelock, amount, script_pubkey)),
{
    lemma_timelock_script(timelock);
    let witness = seq![csv2_script_bytes(flagged_sequence(timelock))];
    assert(witness.drop_last() =~= Seq::<Seq<u8>>::empty());
    reveal_with_fuel(witness_size, 2);
    assert(witness_size(witness) == 14);
}

/// Builds the unsigned transaction that spends `outpoint`, an output held by
/// the witness script for `timelock`, and pays `amount` to `address`. The
/// address has been checked: it belongs to the network.
pub fn spend(outpoint: OutPoint, timelock: u16, amount: u64, address: Address) -> (tx: Transaction)
    requires
        address_on_network(address@, NETWORK),
    ensures
        tx@ == spend_transaction(outpoint, timelock, amount, address_script(address@)),
{
    let script = csv2_script(csv2_sequence(timelock));
    let mut witness: Vec<Vec<u8>> = Vec::new();
    witness.push(script);
    let input = TxIn {
        previous_output: outpoint,
        script_sig: Vec::new(),
        sequence: csv2_sequence(timelock),
        witness,
    };
    let output = TxOut { value: amount, script_pubkey: address.script_pubkey() };
    let mut inputs: Vec<TxIn> = Vec::new();
    inputs.push(input);
    let mut outputs: Vec<TxOut> = Vec::new();
    outputs.push(output);
    let tx = Transaction { version: 2, lock_time: 0, input: inputs, output: outputs };
    proof {
        let expected = spend_transaction(outpoint, timelock, amount, address_script(address@));
        assert(input@.witness =~= expected.input[0].witness);
        assert(input@ == expected.input[0]);
        assert(tx@.input =~= expected.input);
        assert(tx@.output =~= expected.output);
    }
    tx
}

} // verus!
