//! Bit-level helpers for the packed words of a value cell.
//!
//! A cell packs its flag bits into spare positions of existing fields, so
//! every mutation of a flag must leave the neighbouring bits exactly as
//! they were.  These helpers read and write a single bit of a word and
//! carry the contracts that the cell accessors build on.

use vstd::prelude::*;

verus! {

/// The bit at position `i` of `w`, as a boolean.
pub open spec fn spec_bit32(w: u32, i: u32) -> bool {
    (w >> i) & 1u32 == 1u32
}

/// The bit at position `i` of the 16-bit word `w`, as a boolean.
pub open spec fn spec_bit16(w: u16, i: u16) -> bool {
    (w >> i) & 1u16 == 1u16
}

/// `w` with the bit at position `i` set to `b` and every other bit kept.
pub open spec fn spec_set_bit32(w: u32, i: u32, b: bool) -> u32 {
    if b {
        w | (1u32 << i)
    } else {
        w & !(1u32 << i)
    }
}

/// Setting one bit of a word alters that bit alone: the bit itself reads
/// back as written, and every other bit position keeps its old value.
pub proof fn lemma_set_bit32(w: u32, i: u32, b: bool)
    by (bit_vector)
    requires
        i < 32,
    ensures
        spec_bit32(spec_set_bit32(w, i, b), i) == b,
        forall|j: u32| j < 32 && j != i ==> spec_bit32(spec_set_bit32(w, i, b), j) == spec_bit32(w, j),
{
}

/// A zero word has no bit set.
pub proof fn lemma_bit32_zero(i: u32)
    by (bit_vector)
    requires
        i < 32,
    ensures
        !spec_bit32(0u32, i),
{
}

/// Reads bit `i` of `w`.
pub fn bit32(w: u32, i: u32) -> (b: bool)
    requires
        i < 32,
    ensures
        b == spec_bit32(w, i),
{
    (w >> i) & 1u32 == 1u32
}

/// Returns `w` with bit `i` set to `b` and every other bit unchanged.
pub fn set_bit32(w: u32, i: u32, b: bool) -> (r: u32)
    requires
        i < 32,
    ensures
        r == spec_set_bit32(w, i, b),
        spec_bit32(r, i) == b,
        forall|j: u32| j < 32 && j != i ==> spec_bit32(r, j) == spec_bit32(w, j),
{
    proof {
        lemma_set_bit32(w, i, b);
    }
    if b {
        w | (1u32 << i)
    } else {
        w & !(1u32 << i)
    }
}

} // verus!
