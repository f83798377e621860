//! The witness script: a push of the flagged sequence number, then
//! CHECKSEQUENCEVERIFY.

use vstd::prelude::*;
use miniscript::bitcoin::opcodes::all::OP_CSV;
use miniscript::bitcoin::script::Builder;
use miniscript::bitcoin::Sequence;
use crate::sequence::{flagged_sequence, lemma_flag_clear_of_timelock};

verus! {

/// The opcode CHECKSEQUENCEVERIFY as a script byte.
pub open spec fn csv_opcode() -> u8 {
    0xb2
}

/// A positive number as a script number: its magnitude in little-endian
/// bytes, as few as hold it, with one zero byte more where the top bit of the
/// last one would otherwise read as a sign.
pub open spec fn script_number(n: nat) -> Seq<u8>
    decreases n,
{
    if n < 0x80 {
        seq![n as u8]
    } else if n <= 0xff {
        seq![n as u8, 0u8]
    } else {
        seq![(n % 0x100) as u8] + script_number(n / 0x100)
    }
}

/// The script bytes that push the number `n`: the opcode OP_0 for zero, one of
/// OP_1 to OP_16 for the numbers that have an opcode of their own, and
/// otherwise the script number behind its length.
pub open spec fn number_push(n: nat) -> Seq<u8> {
    if n == 0 {
        seq![0u8]
    } else if n <= 16 {
        seq![(0x50 + n) as u8]
    } else {
        seq![script_number(n).len() as u8] + script_number(n)
    }
}

/// The witness script for a sequence number.
pub open spec fn csv2_script_bytes(sequence: u32) -> Seq<u8> {
    number_push(sequence as nat).push(csv_opcode())
}

/// `Builder::new`, as bytes: the script before anything is pushed is empty.
#[verifier::external_body]
fn empty_script() -> (script: Vec<u8>)
    ensures
        script@ == Seq::<u8>::empty(),
{
    Builder::new().into_bytes()
}

/// `Builder::push_sequence` on the script `script`: the result is `script`
/// followed by the push of the sequence number, as `number_push` spells it
/// out. The builder pushes through `push_int`, which picks OP_0 or OP_1 to
/// OP_16 where it can and otherwise writes the minimal script number behind
/// a one-byte length.
#[verifier::external_body]
fn push_sequence(script: Vec<u8>, sequence: u32) -> (pushed: Vec<u8>)
    ensures
        pushed@ == script@ + number_push(sequence as nat),
{
    Builder::from(script).push_sequence(Sequence::from_consensus(sequence)).into_bytes()
}

/// `Builder::push_opcode` with the opcode `OP_CSV`: the result is `script`
/// followed by the one byte of that opcode.
#[verifier::external_body]
fn push_csv(script: Vec<u8>) -> (pushed: Vec<u8>)
    ensures
        pushed@ == script@.push(csv_opcode()),
{
    Builder::from(script).push_opcode(OP_CSV).into_bytes()
}

/// Builds the witness script for `sequence`: the sequence number is pushed,
/// and CHECKSEQUENCEVERIFY holds it against the spending input.
pub fn csv2_script(sequence: u32) -> (script: Vec<u8>)
    ensures
        script@ == csv2_script_bytes(sequence),
{
    let script = push_csv(push_sequence(empty_script(), sequence));
    assert(script@ =~= csv2_script_bytes(sequence));
    script
}

/// The witness script for a timelock, byte by byte: a push of three bytes,
/// the timelock's low and high byte, the flag's byte, and the opcode.
pub open spec fn timelock_script(timelock: u16) -> Seq<u8> {
    seq![3u8, (timelock % 0x100) as u8, (timelock / 0x100) as u8, 0x20u8, csv_opcode()]
}

/// Under the flag every timelock has a script of the same five bytes' shape.
pub proof fn lemma_timelock_script(timelock: u16)
    ensures
        csv2_script_bytes(flagged_sequence(timelock)) == timelock_script(timelock),
{
    lemma_flag_clear_of_timelock(timelock);
    let n = flagged_sequence(timelock) as nat;
    assert(n == timelock + 0x20_0000);
    assert(n / 0x100 == timelock / 0x100 + 0x2000);
    assert(n % 0x100 == timelock % 0x100);
    assert(n / 0x100 / 0x100 == 0x20);
    assert((n / 0x100) % 0x100 == timelock / 0x100);
    reveal_with_fuel(script_number, 3);
    assert(script_number(n) =~= seq![
        (timelock % 0x100) as u8,
        (timelock / 0x100) as u8,
        0x20u8,
    ]);
    assert(csv2_script_bytes(flagged_sequence(timelock)) =~= timelock_script(timelock));
}

/// Two timelocks that differ have witness scripts that differ.
pub proof fn lemma_scripts_differ(a: u16, b: u16)
    requires
        a != b,
    ensures
        csv2_script_bytes(flagged_sequence(a)) != csv2_script_bytes(flagged_sequence(b)),
{
    lemma_timelock_script(a);
    lemma_timelock_script(b);
    let x = timelock_script(a);
    let y = timelock_script(b);
    if x == y {
        assert(x[1] == y[1]);
        assert(x[2] == y[2]);
        assert(a % 0x100 == b % 0x100);
        assert(a / 0x100 == b / 0x100);
    }
}

} // verus!
