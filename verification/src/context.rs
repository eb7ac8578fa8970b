//! Decoding of the flags packed into the trade context.
//!
//! The host passes player state as a small bit mask: bit 0 marks a
//! protected newcomer, bit 1 marks a festival period.  The environment
//! factor engine selects its newbie-protection and festival sub-factors by
//! these flags.

use vstd::prelude::*;

verus! {

/// Bit 0 of the mask: the player is a protected newcomer.
pub open spec fn newbie_bit(mask: i32) -> bool {
    mask & 1i32 == 1i32
}

/// Bit 1 of the mask: a festival is running.
pub open spec fn festival_bit(mask: i32) -> bool {
    (mask >> 1i32) & 1i32 == 1i32
}

/// Whether the mask marks a protected newcomer.
pub fn is_newbie(mask: i32) -> (r: bool)
    ensures
        r == newbie_bit(mask),
{
    mask & 1 == 1
}

/// Whether the mask marks a festival period.
pub fn is_festival(mask: i32) -> (r: bool)
    ensures
        r == festival_bit(mask),
{
    (mask >> 1) & 1 == 1
}

/// Law: the two flags occupy distinct bits — either can be set or cleared
/// without disturbing the other.
pub proof fn lemma_flags_independent(mask: i32)
    ensures
        newbie_bit(mask) == newbie_bit(mask | 2i32),
        festival_bit(mask) == festival_bit(mask | 1i32),
{
    assert(mask & 1i32 == (mask | 2i32) & 1i32) by (bit_vector);
    assert((mask >> 1i32) & 1i32 == ((mask | 1i32) >> 1i32) & 1i32) by (bit_vector);
}

} // verus!
