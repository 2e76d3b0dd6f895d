//! Round-trip and commutation laws of the cell accessors.
//!
//! Each law is stated over the spec-level transitions that the accessors'
//! own contracts use, so it holds of every cell and every representable
//! value, not of chosen examples.

use vstd::prelude::*;

verus! {

use crate::value_storage::ValueStorage;

/// Writing the integer content and reading it back yields the value
/// written, for every cell and every representable value.
pub proof fn lemma_uint_value_round_trip(c: ValueStorage, v: u64)
    ensures
        c.spec_with_value(v).of_uint64().content_ == v,
{
}

/// Writing the combined mantissa-and-exponent is the same as writing them
/// through the two independent setters, and the two independent setters
/// commute: either order leaves the cell in the same state.
pub proof fn lemma_decimal_setters_commute(c: ValueStorage, m: i64, e: i16)
    ensures
        c.spec_with_mantissa(m).spec_with_exponent(e) == c.spec_with_exponent(e).spec_with_mantissa(
            m,
        ),
{
}

} // verus!
