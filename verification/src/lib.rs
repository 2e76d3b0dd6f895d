//! A fixed-size, overlaid value-storage cell for a FAST (FIX Adapted for
//! STreaming) codec runtime.
//!
//! A [`value_storage::ValueStorage`] cell holds any one of the primitive
//! shapes a FAST field may take — an unsigned integer, a fixed-point decimal
//! (mantissa and exponent), a byte-sequence view, a group of child cells, or
//! a template reference — overlaid in the same sixteen bytes.  The "present"
//! and "defined" flag bits live inside spare bits of the payload words, so no
//! separate discriminator word is spent; the codec that drives a cell tracks
//! which variant is live.
//!
//! The free functions of this crate mirror the flat entry-point surface that
//! a codec calls to drive state transitions on a cell; each one states
//! exactly which bits it writes and that every neighbouring packed sub-field
//! is left untouched.

pub mod bits;
pub mod cstring;
pub mod laws;
pub mod value_storage;

use vstd::prelude::*;

verus! {

use crate::bits::{set_bit32, spec_bit16, spec_bit32, spec_set_bit32};
use crate::cstring::{cstring_len, cstring_length};
use crate::value_storage::{set_capacity_word, spec_set_capacity_word, ValueStorage};

/// Setting bit 16 of the flags word — bit 0 of the decimal variant's 16-bit
/// defined word — leaves the exponent half and the other defined bits
/// untouched.
proof fn lemma_set_decimal_defined(w: u32, b: bool)
    by (bit_vector)
    ensures
        spec_set_bit32(w, 16, b) as i16 == w as i16,
        spec_bit16((spec_set_bit32(w, 16, b) >> 16) as u16, 0) == b,
        forall|j: u16| 0 < j < 16 ==> #[trigger] spec_bit16((spec_set_bit32(w, 16, b) >> 16) as u16, j)
            == spec_bit16((w >> 16) as u16, j),
{
}

/// Storing a mantissa's bits in the payload word and reading them back
/// yields the mantissa.
proof fn lemma_mantissa_roundtrip(m: i64)
    by (bit_vector)
    ensures
        (m as u64) as i64 == m,
{
}

/// Storing an exponent's bits in the low half of the flags word stores
/// exactly those bits: the exponent reads back, and the high half — the
/// decimal's 16-bit defined word — is kept.
proof fn lemma_exponent_word(w: u32, e: i16)
    by (bit_vector)
    ensures
        ((w & 0xFFFF_0000u32) | ((e as u16) as u32)) as i16 == e,
        (((w & 0xFFFF_0000u32) | ((e as u16) as u32)) >> 16) as u16 == (w >> 16) as u16,
{
}

/// Writes the uint variant's defined flag, bit 0 of its defined word,
/// without disturbing any other bit of the cell.
pub fn set_uint64_defined_bit(storage: &mut ValueStorage, defined: bool)
    ensures
        *final(storage) == (ValueStorage {
            flags_: spec_set_bit32(old(storage).flags_, 0, defined),
            ..*old(storage)
        }),
        final(storage).spec_is_defined() == defined,
        final(storage).of_uint64().content_ == old(storage).of_uint64().content_,
        final(storage).of_uint64().present_ == old(storage).of_uint64().present_,
        forall|j: u32| 0 < j < 32 ==> spec_bit32(final(storage).of_uint64().defined_bit_, j)
            == spec_bit32(old(storage).of_uint64().defined_bit_, j),
{
    storage.flags_ = set_bit32(storage.flags_, 0, defined);
}

/// Writes the uint variant's present flag, bit 0 of the present word; the
/// reserved higher bits of the word and the rest of the cell are untouched.
pub fn set_uint64_present(storage: &mut ValueStorage, present: bool)
    ensures
        *final(storage) == (ValueStorage {
            present_or_len_: spec_set_bit32(old(storage).present_or_len_, 0, present),
            ..*old(storage)
        }),
        spec_bit32(final(storage).of_uint64().present_, 0) == present,
        forall|j: u32| 0 < j < 32 ==> spec_bit32(final(storage).of_uint64().present_, j)
            == spec_bit32(old(storage).of_uint64().present_, j),
        final(storage).of_uint64().defined_bit_ == old(storage).of_uint64().defined_bit_,
        final(storage).of_uint64().content_ == old(storage).of_uint64().content_,
{
    storage.present_or_len_ = set_bit32(storage.present_or_len_, 0, present);
}

/// Writes the uint variant's integer content verbatim; the present word
/// and the flags word keep their values.
pub fn set_uint64_set_value(storage: &mut ValueStorage, value: u64)
    ensures
        *final(storage) == old(storage).spec_with_value(value),
        final(storage).of_uint64().content_ == value,
        final(storage).of_uint64().present_ == old(storage).of_uint64().present_,
        final(storage).of_uint64().defined_bit_ == old(storage).of_uint64().defined_bit_,
{
    storage.set(value);
}

/// Writes the decimal variant's defined flag, bit 0 of its 16-bit defined
/// word; the exponent, mantissa, present word and the other defined bits
/// are untouched.
pub fn set_decimal_defined_bit(storage: &mut ValueStorage, defined: bool)
    ensures
        *final(storage) == (ValueStorage {
            flags_: spec_set_bit32(old(storage).flags_, 16, defined),
            ..*old(storage)
        }),
        spec_bit16(final(storage).of_decimal().defined_bit_, 0) == defined,
        forall|j: u16| 0 < j < 16 ==> spec_bit16(final(storage).of_decimal().defined_bit_, j)
            == spec_bit16(old(storage).of_decimal().defined_bit_, j),
        final(storage).of_decimal().exponent_ == old(storage).of_decimal().exponent_,
        final(storage).of_decimal().mantissa_ == old(storage).of_decimal().mantissa_,
        final(storage).of_decimal().present_ == old(storage).of_decimal().present_,
{
    proof {
        lemma_set_decimal_defined(storage.flags_, defined);
    }
    storage.flags_ = set_bit32(storage.flags_, 16, defined);
}

/// Writes the decimal variant's present flag, bit 0 of the present word;
/// the reserved higher bits of the word and the rest of the cell are
/// untouched.
pub fn set_decimal_present(storage: &mut ValueStorage, present: bool)
    ensures
        *final(storage) == (ValueStorage {
            present_or_len_: spec_set_bit32(old(storage).present_or_len_, 0, present),
            ..*old(storage)
        }),
        spec_bit32(final(storage).of_decimal().present_, 0) == present,
        forall|j: u32| 0 < j < 32 ==> spec_bit32(final(storage).of_decimal().present_, j)
            == spec_bit32(old(storage).of_decimal().present_, j),
        final(storage).of_decimal().exponent_ == old(storage).of_decimal().exponent_,
        final(storage).of_decimal().defined_bit_ == old(storage).of_decimal().defined_bit_,
        final(storage).of_decimal().mantissa_ == old(storage).of_decimal().mantissa_,
{
    storage.present_or_len_ = set_bit32(storage.present_or_len_, 0, present);
}

/// Writes the decimal variant's mantissa and exponent in one call; both
/// read back exactly, and the defined word and present word are untouched.
pub fn set_decimal_mantissa_and_exponent(storage: &mut ValueStorage, mantissa: i64, exponent: i16)
    ensures
        *final(storage) == old(storage).spec_with_mantissa(mantissa).spec_with_exponent(exponent),
        final(storage).of_decimal().mantissa_ == mantissa,
        final(storage).of_decimal().exponent_ == exponent,
        final(storage).of_decimal().defined_bit_ == old(storage).of_decimal().defined_bit_,
        final(storage).of_decimal().present_ == old(storage).of_decimal().present_,
{
    proof {
        lemma_mantissa_roundtrip(mantissa);
        lemma_exponent_word(storage.flags_, exponent);
    }
    let payload: u64 = #[verifier::truncate] (mantissa as u64);
    let exponent_bits: u32 = (#[verifier::truncate] (exponent as u16)) as u32;
    storage.payload_ = payload;
    storage.flags_ = (storage.flags_ & 0xFFFF_0000) | exponent_bits;
}

/// Writes the decimal variant's mantissa: the payload word takes its bits;
/// the rest of the cell is untouched.
pub fn set_decimal_mantissa(storage: &mut ValueStorage, mantissa: i64)
    ensures
        *final(storage) == old(storage).spec_with_mantissa(mantissa),
        final(storage).of_decimal().mantissa_ == mantissa,
        final(storage).of_decimal().exponent_ == old(storage).of_decimal().exponent_,
        final(storage).of_decimal().defined_bit_ == old(storage).of_decimal().defined_bit_,
        final(storage).of_decimal().present_ == old(storage).of_decimal().present_,
{
    proof {
        lemma_mantissa_roundtrip(mantissa);
    }
    storage.payload_ = #[verifier::truncate] (mantissa as u64);
}

/// Writes the decimal variant's exponent into the low half of the flags
/// word; the 16-bit defined word in the high half, the present word and
/// the mantissa are untouched.
pub fn set_decimal_exponent(storage: &mut ValueStorage, exponent: i16)
    ensures
        *final(storage) == old(storage).spec_with_exponent(exponent),
        final(storage).of_decimal().exponent_ == exponent,
        final(storage).of_decimal().defined_bit_ == old(storage).of_decimal().defined_bit_,
        final(storage).of_decimal().mantissa_ == old(storage).of_decimal().mantissa_,
        final(storage).of_decimal().present_ == old(storage).of_decimal().present_,
{
    proof {
        lemma_exponent_word(storage.flags_, exponent);
    }
    let exponent_bits: u32 = (#[verifier::truncate] (exponent as u16)) as u32;
    storage.flags_ = (storage.flags_ & 0xFFFF_0000) | exponent_bits;
}

/// Reads the decimal variant's mantissa back from the payload word.
pub fn get_decimal_mantissa(storage: &ValueStorage) -> (mantissa: i64)
    ensures
        mantissa == storage.of_decimal().mantissa_,
{
    #[verifier::truncate] (storage.payload_ as i64)
}

/// Reads the decimal variant's exponent back from the low half of the
/// flags word.
pub fn get_decimal_exponent(storage: &ValueStorage) -> (exponent: i16)
    ensures
        exponent == storage.of_decimal().exponent_,
{
    #[verifier::truncate] (storage.flags_ as i16)
}

/// Writes the array variant's defined flag at the position this flat
/// surface uses, bit 31 of the capacity-and-defined word; the capacity
/// field, the internal defined position at bit 0, the length and the
/// content are untouched.
pub fn set_array_defined_bit(storage: &mut ValueStorage, defined: bool)
    ensures
        *final(storage) == (ValueStorage {
            flags_: spec_set_bit32(old(storage).flags_, 31, defined),
            ..*old(storage)
        }),
        spec_bit32(final(storage).of_array().capacity_in_bytes_and_defined_bit_, 31) == defined,
        final(storage).of_array().spec_capacity_in_bytes()
            == old(storage).of_array().spec_capacity_in_bytes(),
        final(storage).spec_is_defined() == old(storage).spec_is_defined(),
        final(storage).of_array().len_ == old(storage).of_array().len_,
        final(storage).of_array().content_ == old(storage).of_array().content_,
{
    let mut view = storage.as_array();
    view.set_defined(defined);
    storage.set_array(view);
}

/// Attaches the cell to externally owned null-terminated bytes: measures
/// the length up to the first zero byte, then stores that length plus one,
/// the content word, the defined flag at bit 31, and a zero capacity,
/// marking the cell a non-owning view.  `value` is the pointer-sized
/// content word; `bytes` is the sequence it addresses, handed in for the
/// measurement.
pub fn set_string_value(storage: &mut ValueStorage, value: u64, bytes: &[u8])
    requires
        exists|k: int| 0 <= k < bytes@.len() && bytes@[k] == 0u8,
        cstring_len(bytes@) < u32::MAX,
    ensures
        *final(storage) == (ValueStorage {
            present_or_len_: (cstring_len(bytes@) + 1) as u32,
            flags_: spec_set_capacity_word(spec_set_bit32(old(storage).flags_, 31, true), 0),
            payload_: value,
        }),
        final(storage).of_array().len_ == cstring_len(bytes@) + 1,
        final(storage).of_array().content_ == value,
        final(storage).of_array().spec_capacity_in_bytes() == 0,
        spec_bit32(final(storage).of_array().capacity_in_bytes_and_defined_bit_, 31),
        final(storage).spec_is_defined() == old(storage).spec_is_defined(),
        !final(storage).spec_is_empty(),
{
    let measured: usize = cstring_length(bytes);
    set_string_value_with_size(storage, value, measured as u32);
}

/// Attaches the cell to externally owned bytes of a given length: stores
/// the length plus one, the content word, the defined flag at bit 31, and
/// a zero capacity, marking the cell a non-owning view.
pub fn set_string_value_with_size(storage: &mut ValueStorage, value: u64, size: u32)
    requires
        size < u32::MAX,
    ensures
        *final(storage) == (ValueStorage {
            present_or_len_: (size + 1) as u32,
            flags_: spec_set_capacity_word(spec_set_bit32(old(storage).flags_, 31, true), 0),
            payload_: value,
        }),
        final(storage).of_array().len_ == size + 1,
        final(storage).of_array().content_ == value,
        final(storage).of_array().spec_capacity_in_bytes() == 0,
        spec_bit32(final(storage).of_array().capacity_in_bytes_and_defined_bit_, 31),
        final(storage).spec_is_defined() == old(storage).spec_is_defined(),
        !final(storage).spec_is_empty(),
{
    storage.flags_ = set_bit32(storage.flags_, 31, true);
    storage.present_or_len_ = size + 1;
    storage.payload_ = value;
    storage.flags_ = set_capacity_word(storage.flags_, 0);
}

/// True exactly when the array variant's length word is zero — the value
/// is absent — whatever the content word holds.
pub fn get_array_is_empty(storage: &ValueStorage) -> (empty: bool)
    ensures
        empty == (storage.of_array().len_ == 0),
        empty == storage.spec_is_empty(),
{
    storage.is_empty()
}

/// Sums two sizes.
pub fn add(left: usize, right: usize) -> (r: usize)
    requires
        left + right <= usize::MAX,
    ensures
        r == left + right,
{
    left + right
}

} // verus!
