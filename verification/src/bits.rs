//! Single-bit views of the per-channel bitmask registers.
//!
//! The first controller generation keeps one status or control bit per
//! channel in 32-bit registers; the fourth-generation controller does the
//! same for hardware-request status, split across two halves. These helpers
//! give those registers a per-bit reading and prove how the set/clear
//! operations act on each bit.

use vstd::prelude::*;

verus! {

/// Bit `i` of `x` is set.
pub open spec fn nth_bit(x: u32, i: u32) -> bool {
    x & (1u32 << i) != 0
}

/// Setting bit `i` leaves every other bit as it was.
pub proof fn lemma_set_bit(x: u32, i: u32)
    by (bit_vector)
    requires
        i < 32,
    ensures
        nth_bit(x | (1u32 << i), i),
        forall|j: u32| j < 32 && j != i ==> nth_bit(x | (1u32 << i), j) == nth_bit(x, j),
{
}

/// Clearing bit `i` leaves every other bit as it was.
pub proof fn lemma_clear_bit(x: u32, i: u32)
    by (bit_vector)
    requires
        i < 32,
    ensures
        !nth_bit(x & !(1u32 << i), i),
        forall|j: u32| j < 32 && j != i ==> nth_bit(x & !(1u32 << i), j) == nth_bit(x, j),
{
}

} // verus!
