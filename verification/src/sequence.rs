//! The flagged sequence number.

use vstd::prelude::*;

verus! {

/// The experimental flag: bit 21 of the sequence number.
pub const CSV2_FLAG: u32 = 1 << 21;

/// The sequence number that stands for `timelock` blocks under the flag.
pub open spec fn flagged_sequence(timelock: u16) -> u32 {
    timelock as u32 | CSV2_FLAG
}

/// The flag lies above every timelock: the two share no bit, so combining
/// them adds the flag's value to the timelock and either can be read back.
pub proof fn lemma_flag_clear_of_timelock(timelock: u16)
    ensures
        timelock as u32 & CSV2_FLAG == 0,
        flagged_sequence(timelock) == timelock + 2097152,
        flagged_sequence(timelock) & 0xffff == timelock,
        flagged_sequence(timelock) & CSV2_FLAG == CSV2_FLAG,
{
    let t = timelock as u32;
    assert(CSV2_FLAG == 2097152u32) by (bit_vector);
    assert(t & 2097152u32 == 0 && (t | 2097152u32) == t + 2097152u32 && (t | 2097152u32) & 0xffff
        == t && (t | 2097152u32) & 2097152u32 == 2097152u32) by (bit_vector)
        requires
            t <= 0xffff,
    ;
}

/// Combines `timelock` with the flag.
pub fn csv2_sequence(timelock: u16) -> (sequence: u32)
    ensures
        sequence == flagged_sequence(timelock),
        sequence == timelock + 2097152,
{
    proof {
        lemma_flag_clear_of_timelock(timelock);
    }
    timelock as u32 | CSV2_FLAG
}

} // verus!
