//! The overlaid value-storage cell and its variant views.
//!
//! A [`ValueStorage`] is a fixed-size region that can be interpreted as one
//! of five variants, all starting at offset 0.  It is held here as the three
//! raw little-endian words of that region:
//!
//! * offsets 0..4 — the variant-shared first word (`present_`, or `len_` for
//!   the array variant);
//! * offsets 4..8 — the variant-specific packed flags/exponent word;
//! * offsets 8..16 — the variant-specific payload (integer content, mantissa
//!   bits, or a pointer-sized word).
//!
//! Each variant view is a plain struct over those words; the spec functions
//! `of_uint64`, `of_decimal`, `of_array` and the rest say, bit for bit, how a
//! view decodes from the raw words, and every accessor's contract speaks in
//! terms of these views.

use vstd::prelude::*;

verus! {

use crate::bits::{bit32, set_bit32, spec_bit32, spec_set_bit32};

/// The cell: sixteen overlaid bytes, held as three raw words.
///
/// Every bit pattern is a valid cell; a zero-initialized cell reads as
/// absent and undefined under every variant.
#[derive(Clone, Copy, Debug, PartialEq, Eq, Structural)]
pub struct ValueStorage {
    /// Offsets 0..4: `present_` for the scalar variants, `len_` for the
    /// array variant.  A zero first word is a valid "absent" reading under
    /// every variant.
    pub present_or_len_: u32,
    /// Offsets 4..8: the packed flags word — the uint `defined_bit_` word,
    /// the decimal exponent and 16-bit `defined_bit_` pair, the array
    /// capacity-and-defined word, or the group flag word.
    pub flags_: u32,
    /// Offsets 8..16: the payload — integer content, the mantissa bits, or a
    /// pointer-sized word.
    pub payload_: u64,
}

/// The cell read as the unsigned 64-bit integer variant.
#[derive(Clone, Copy, Debug, PartialEq, Eq, Structural)]
pub struct ValueStorageUint64 {
    /// Nonzero when the field is present in the current message.
    pub present_: u32,
    /// The defined flag sits in the least significant bit.
    pub defined_bit_: u32,
    /// The integer content, written and read verbatim.
    pub content_: u64,
}

/// The cell read as the unsigned 32-bit integer variant (the shape a 32-bit
/// target uses for its integer content; the content occupies the low half of
/// the payload word).
#[derive(Clone, Copy, Debug, PartialEq, Eq, Structural)]
pub struct ValueStorageUint32 {
    /// Nonzero when the field is present in the current message.
    pub present_: u32,
    /// The defined flag sits in the least significant bit.
    pub defined_bit_: u32,
    /// The integer content, the low 32 bits of the payload word.
    pub content_: u32,
}

/// The cell read as the fixed-point decimal variant.
#[derive(Clone, Copy, Debug, PartialEq, Eq, Structural)]
pub struct ValueStorageDecimal {
    /// Nonzero when the field is present in the current message.
    pub present_: u32,
    /// The exponent, the low 16 bits of the flags word.
    pub exponent_: i16,
    /// The defined flag sits in the least significant bit of this 16-bit
    /// word, the high half of the flags word.
    pub defined_bit_: u16,
    /// The mantissa, the payload word reinterpreted as a signed integer.
    pub mantissa_: i64,
}

/// The cell read as the group variant: a reference to a contiguous block of
/// child cells.
#[derive(Clone, Copy, Debug, PartialEq, Eq, Structural)]
pub struct ValueStorageGroup {
    /// Nonzero when the field is present in the current message.
    pub present_: u32,
    /// Packs three sub-fields: the least significant bit is the defined
    /// flag; the two most significant bits say whether the cell owns its
    /// content and whether it is a weak link that must not be destructed.
    pub own_content_and_is_link_and_defined_bit_: u32,
    /// The child-cell block, as a pointer-sized word.
    pub content_: u64,
}

/// The cell read as the variable-length byte-sequence variant.
#[derive(Clone, Copy, Debug, PartialEq, Eq, Structural)]
pub struct ValueStorageArray {
    /// The length plus one of the content: `len_ == 0` means the value is
    /// absent (null); `len_ == 1` is the empty sequence; otherwise the
    /// addressable content length is `len_ - 1`.
    pub len_: u32,
    /// Packs the capacity of the owned buffer (bits 1..=30) with the defined
    /// flag (bit 0 internally; bit 31 as written by the flat entry-point
    /// surface).  A zero capacity with `len_ > 0` marks a non-owning view.
    pub capacity_in_bytes_and_defined_bit_: u32,
    /// The byte buffer, as a pointer-sized word.  When `len_ == 0` it is
    /// logically null, whatever its bit pattern.
    pub content_: u64,
}

/// The cell read as the template-reference variant.
#[derive(Clone, Copy, Debug, PartialEq, Eq, Structural)]
pub struct ValueStorageTemplateRef {
    /// The externally owned template instruction, as a pointer-sized word
    /// (the first and second raw words combined, low word first).
    pub instruction_: u64,
    /// The cell block for the template's fields, as a pointer-sized word.
    pub content_: u64,
}

impl ValueStorage {
    /// The cell decoded as the unsigned 64-bit integer variant.
    pub open spec fn of_uint64(self) -> ValueStorageUint64 {
        ValueStorageUint64 {
            present_: self.present_or_len_,
            defined_bit_: self.flags_,
            content_: self.payload_,
        }
    }

    /// The cell decoded as the unsigned 32-bit integer variant.
    pub open spec fn of_uint32(self) -> ValueStorageUint32 {
        ValueStorageUint32 {
            present_: self.present_or_len_,
            defined_bit_: self.flags_,
            content_: self.payload_ as u32,
        }
    }

    /// The cell decoded as the fixed-point decimal variant: the exponent is
    /// the low half of the flags word, the 16-bit defined word its high
    /// half, and the mantissa the payload word reinterpreted as signed.
    pub open spec fn of_decimal(self) -> ValueStorageDecimal {
        ValueStorageDecimal {
            present_: self.present_or_len_,
            exponent_: self.flags_ as i16,
            defined_bit_: (self.flags_ >> 16) as u16,
            mantissa_: self.payload_ as i64,
        }
    }

    /// The cell decoded as the group variant.
    pub open spec fn of_group(self) -> ValueStorageGroup {
        ValueStorageGroup {
            present_: self.present_or_len_,
            own_content_and_is_link_and_defined_bit_: self.flags_,
            content_: self.payload_,
        }
    }

    /// The cell decoded as the byte-sequence variant.
    pub open spec fn of_array(self) -> ValueStorageArray {
        ValueStorageArray {
            len_: self.present_or_len_,
            capacity_in_bytes_and_defined_bit_: self.flags_,
            content_: self.payload_,
        }
    }

    /// The cell decoded as the template-reference variant: the instruction
    /// word is the first and second raw words combined little-endian.
    pub open spec fn of_templateref(self) -> ValueStorageTemplateRef {
        ValueStorageTemplateRef {
            instruction_: (self.present_or_len_ as u64) | ((self.flags_ as u64) << 32),
            content_: self.payload_,
        }
    }

    /// The defined flag as the variant-shared internal helpers read it:
    /// the least significant bit of the flags word.
    pub open spec fn spec_is_defined(self) -> bool {
        spec_bit32(self.flags_, 0)
    }

    /// Whether the cell reads as absent under the array variant.
    pub open spec fn spec_is_empty(self) -> bool {
        self.present_or_len_ == 0
    }

    /// The addressable content length under the array variant: `len_ - 1`
    /// when the value is there, zero when it is absent.
    pub open spec fn spec_array_length(self) -> u32 {
        if self.present_or_len_ == 0 {
            0
        } else {
            (self.present_or_len_ - 1) as u32
        }
    }

    /// The zero-initialized cell.
    pub open spec fn spec_default() -> ValueStorage {
        ValueStorage { present_or_len_: 0, flags_: 0, payload_: 0 }
    }

    /// The cell with the integer content replaced and everything else kept.
    pub open spec fn spec_with_value(self, v: u64) -> ValueStorage {
        ValueStorage { payload_: v, ..self }
    }

    /// The cell with the mantissa replaced — the payload word takes the
    /// mantissa's bits — and everything else kept.
    pub open spec fn spec_with_mantissa(self, m: i64) -> ValueStorage {
        ValueStorage { payload_: m as u64, ..self }
    }

    /// The cell with the exponent replaced — the low half of the flags word
    /// takes the exponent's bits — and everything else kept.
    pub open spec fn spec_with_exponent(self, e: i16) -> ValueStorage {
        ValueStorage { flags_: (self.flags_ & 0xFFFF_0000u32) | ((e as u16) as u32), ..self }
    }
}

impl Default for ValueStorage {
    /// A zero-initialized cell: absent, undefined and non-owning under
    /// every variant.
    fn default() -> (s: Self)
        ensures
            s == Self::spec_default(),
            s.spec_is_empty(),
            !s.spec_is_defined(),
    {
        proof {
            crate::bits::lemma_bit32_zero(0);
        }
        ValueStorage { present_or_len_: 0, flags_: 0, payload_: 0 }
    }
}

impl ValueStorage {
    /// A fresh cell holding a numeric value: present, defined, and the
    /// value widened into the integer content slot.
    pub fn new_numeric(value: u32) -> (s: Self)
        ensures
            s == (ValueStorage { present_or_len_: 1, flags_: 1, payload_: value as u64 }),
            s.of_uint64().content_ == value,
            s.of_uint64().present_ == 1,
            s.of_uint64().defined_bit_ == 1,
    {
        ValueStorage { present_or_len_: 1, flags_: 1, payload_: value as u64 }
    }

    /// A fresh cell holding a byte-sequence view: the content word set, the
    /// conservative length placeholder of one, and the whole
    /// capacity-and-defined word set to one (the defined bit in its
    /// internal, least significant position).
    pub fn new_string(content: u64) -> (s: Self)
        ensures
            s == (ValueStorage { present_or_len_: 1, flags_: 1, payload_: content }),
            s.of_array().len_ == 1,
            s.of_array().content_ == content,
            !s.spec_is_empty(),
    {
        ValueStorage { present_or_len_: 1, flags_: 1, payload_: content }
    }

    /// Reads the defined flag from its internal position, the least
    /// significant bit of the flags word.
    pub fn is_defined(&self) -> (b: bool)
        ensures
            b == self.spec_is_defined(),
    {
        bit32(self.flags_, 0)
    }

    /// Writes the defined flag at its internal position, the least
    /// significant bit of the flags word, leaving every other bit of the
    /// cell untouched.
    pub fn defined(&mut self, v: bool)
        ensures
            *final(self) == (ValueStorage { flags_: spec_set_bit32(old(self).flags_, 0, v), ..*old(self) }),
            final(self).spec_is_defined() == v,
            forall|j: u32| 0 < j < 32 ==> spec_bit32(final(self).flags_, j) == spec_bit32(old(self).flags_, j),
    {
        self.flags_ = set_bit32(self.flags_, 0, v);
    }

    /// Whether the cell reads as absent under the array variant: true
    /// exactly when the first word is zero, whatever the other words hold.
    pub fn is_empty(&self) -> (b: bool)
        ensures
            b == self.spec_is_empty(),
    {
        self.present_or_len_ == 0
    }

    /// Writes presence through the variant-shared first word, as the
    /// length-plus-one convention encodes it: one for present, zero for
    /// absent.  The whole word is replaced.
    pub fn present(&mut self, p: bool)
        ensures
            *final(self) == (ValueStorage { present_or_len_: if p { 1u32 } else { 0u32 }, ..*old(self) }),
            final(self).spec_is_empty() == !p,
    {
        self.present_or_len_ = if p { 1 } else { 0 };
    }

    /// The addressable content length under the array variant: `len_ - 1`
    /// when the value is there, zero when it is absent.
    pub fn array_length(&self) -> (n: u32)
        ensures
            n == self.spec_array_length(),
    {
        if self.present_or_len_ == 0 {
            0
        } else {
            self.present_or_len_ - 1
        }
    }

    /// Stores an addressable content length of `n` under the array
    /// variant's length-plus-one convention.
    pub fn set_array_length(&mut self, n: u32)
        requires
            n < u32::MAX,
        ensures
            *final(self) == (ValueStorage { present_or_len_: (n + 1) as u32, ..*old(self) }),
            final(self).spec_array_length() == n,
            !final(self).spec_is_empty(),
    {
        self.present_or_len_ = n + 1;
    }

    /// Reads the cell as the unsigned 64-bit integer view.
    pub fn as_uint64(&self) -> (v: ValueStorageUint64)
        ensures
            v == self.of_uint64(),
    {
        ValueStorageUint64 {
            present_: self.present_or_len_,
            defined_bit_: self.flags_,
            content_: self.payload_,
        }
    }

    /// Reads the cell as the unsigned 32-bit integer view.
    pub fn as_uint32(&self) -> (v: ValueStorageUint32)
        ensures
            v == self.of_uint32(),
    {
        ValueStorageUint32 {
            present_: self.present_or_len_,
            defined_bit_: self.flags_,
            content_: #[verifier::truncate] (self.payload_ as u32),
        }
    }

    /// Reads the cell as the fixed-point decimal view.
    pub fn as_decimal(&self) -> (v: ValueStorageDecimal)
        ensures
            v == self.of_decimal(),
    {
        ValueStorageDecimal {
            present_: self.present_or_len_,
            exponent_: #[verifier::truncate] (self.flags_ as i16),
            defined_bit_: #[verifier::truncate] ((self.flags_ >> 16) as u16),
            mantissa_: #[verifier::truncate] (self.payload_ as i64),
        }
    }

    /// Reads the cell as the group view.
    pub fn as_group(&self) -> (v: ValueStorageGroup)
        ensures
            v == self.of_group(),
    {
        ValueStorageGroup {
            present_: self.present_or_len_,
            own_content_and_is_link_and_defined_bit_: self.flags_,
            content_: self.payload_,
        }
    }

    /// Reads the cell as the byte-sequence view.
    pub fn as_array(&self) -> (a: ValueStorageArray)
        ensures
            a == self.of_array(),
    {
        ValueStorageArray {
            len_: self.present_or_len_,
            capacity_in_bytes_and_defined_bit_: self.flags_,
            content_: self.payload_,
        }
    }

    /// Reads the cell as the template-reference view.
    pub fn as_templateref(&self) -> (v: ValueStorageTemplateRef)
        ensures
            v == self.of_templateref(),
    {
        ValueStorageTemplateRef {
            instruction_: (self.present_or_len_ as u64) | ((self.flags_ as u64) << 32),
            content_: self.payload_,
        }
    }

    /// Writes a byte-sequence view back over the cell's raw words.
    pub fn set_array(&mut self, a: ValueStorageArray)
        ensures
            *final(self) == (ValueStorage {
                present_or_len_: a.len_,
                flags_: a.capacity_in_bytes_and_defined_bit_,
                payload_: a.content_,
            }),
            final(self).of_array() == a,
    {
        self.present_or_len_ = a.len_;
        self.flags_ = a.capacity_in_bytes_and_defined_bit_;
        self.payload_ = a.content_;
    }

    /// Reads the capacity field under the array variant.
    pub fn capacity_in_bytes(&self) -> (c: u32)
        ensures
            c == self.of_array().spec_capacity_in_bytes(),
    {
        (self.flags_ >> 1) & 0x3FFF_FFFF
    }

    /// Reads the integer content verbatim.
    pub fn get(&self) -> (v: u64)
        ensures
            v == self.of_uint64().content_,
    {
        self.payload_
    }

    /// Writes the integer content verbatim, leaving the present word and
    /// the flags word untouched.
    pub fn set(&mut self, v: u64)
        ensures
            *final(self) == (ValueStorage { payload_: v, ..*old(self) }),
            final(self).of_uint64().content_ == v,
    {
        self.payload_ = v;
    }
}

/// The capacity-and-defined word with the capacity field (bits 1..=30) set
/// to `capacity`, truncated to 30 bits; the defined positions, bit 0 and
/// bit 31, are kept.
pub open spec fn spec_set_capacity_word(w: u32, capacity: u32) -> u32 {
    (w & 0x8000_0001u32) | ((capacity & 0x3FFF_FFFFu32) << 1)
}

/// Writing the defined flag at bit 31 leaves the capacity field, bits
/// 1..=30, untouched.
proof fn lemma_set_bit31_keeps_capacity(w: u32, b: bool)
    by (bit_vector)
    ensures
        (spec_set_bit32(w, 31, b) >> 1) & 0x3FFF_FFFFu32 == (w >> 1) & 0x3FFF_FFFFu32,
{
}

/// Writing the capacity field stores exactly the 30 low bits of the value
/// handed in, and leaves bit 0 and bit 31 as they were.
proof fn lemma_set_capacity_word(w: u32, capacity: u32)
    by (bit_vector)
    ensures
        (spec_set_capacity_word(w, capacity) >> 1) & 0x3FFF_FFFFu32 == capacity & 0x3FFF_FFFFu32,
        spec_bit32(spec_set_capacity_word(w, capacity), 0) == spec_bit32(w, 0),
        spec_bit32(spec_set_capacity_word(w, capacity), 31) == spec_bit32(w, 31),
        capacity < 0x4000_0000 ==> capacity & 0x3FFF_FFFFu32 == capacity,
{
}

/// Returns the capacity-and-defined word with the capacity field set to
/// `capacity`, truncated to 30 bits; bit 0 and bit 31 are kept.
pub fn set_capacity_word(w: u32, capacity: u32) -> (r: u32)
    ensures
        r == spec_set_capacity_word(w, capacity),
        (r >> 1) & 0x3FFF_FFFFu32 == capacity & 0x3FFF_FFFFu32,
        capacity < 0x4000_0000 ==> (r >> 1) & 0x3FFF_FFFFu32 == capacity,
        spec_bit32(r, 0) == spec_bit32(w, 0),
        spec_bit32(r, 31) == spec_bit32(w, 31),
{
    proof {
        lemma_set_capacity_word(w, capacity);
    }
    (w & 0x8000_0001) | ((capacity & 0x3FFF_FFFF) << 1)
}

impl ValueStorageArray {
    /// The capacity field: bits 1..=30 of the capacity-and-defined word.
    pub open spec fn spec_capacity_in_bytes(self) -> u32 {
        (self.capacity_in_bytes_and_defined_bit_ >> 1) & 0x3FFF_FFFFu32
    }

    /// Writes the defined flag at the position the flat entry-point surface
    /// uses, bit 31 of the capacity-and-defined word; the capacity field,
    /// the internal defined position at bit 0, the length and the content
    /// are untouched.
    pub fn set_defined(&mut self, defined: bool)
        ensures
            *final(self) == (ValueStorageArray {
                capacity_in_bytes_and_defined_bit_: spec_set_bit32(
                    old(self).capacity_in_bytes_and_defined_bit_,
                    31,
                    defined,
                ),
                ..*old(self)
            }),
            spec_bit32(final(self).capacity_in_bytes_and_defined_bit_, 31) == defined,
            spec_bit32(final(self).capacity_in_bytes_and_defined_bit_, 0) == spec_bit32(
                old(self).capacity_in_bytes_and_defined_bit_,
                0,
            ),
            final(self).spec_capacity_in_bytes() == old(self).spec_capacity_in_bytes(),
    {
        proof {
            lemma_set_bit31_keeps_capacity(self.capacity_in_bytes_and_defined_bit_, defined);
        }
        self.capacity_in_bytes_and_defined_bit_ = set_bit32(
            self.capacity_in_bytes_and_defined_bit_,
            31,
            defined,
        );
    }

    /// Writes the capacity field, bits 1..=30 of the capacity-and-defined
    /// word.  A value with bit 30 or bit 31 set is out of range and is
    /// truncated to 30 bits; both defined positions, bit 0 and bit 31, and
    /// the length and content are untouched.
    pub fn set_capacity_in_bytes(&mut self, capacity: u32)
        ensures
            *final(self) == (ValueStorageArray {
                capacity_in_bytes_and_defined_bit_: spec_set_capacity_word(
                    old(self).capacity_in_bytes_and_defined_bit_,
                    capacity,
                ),
                ..*old(self)
            }),
            final(self).spec_capacity_in_bytes() == capacity & 0x3FFF_FFFFu32,
            capacity < 0x4000_0000 ==> final(self).spec_capacity_in_bytes() == capacity,
            spec_bit32(final(self).capacity_in_bytes_and_defined_bit_, 0) == spec_bit32(
                old(self).capacity_in_bytes_and_defined_bit_,
                0,
            ),
            spec_bit32(final(self).capacity_in_bytes_and_defined_bit_, 31) == spec_bit32(
                old(self).capacity_in_bytes_and_defined_bit_,
                31,
            ),
    {
        self.capacity_in_bytes_and_defined_bit_ = set_capacity_word(
            self.capacity_in_bytes_and_defined_bit_,
            capacity,
        );
    }

    /// Reads the capacity field back.
    pub fn capacity_in_bytes(&self) -> (c: u32)
        ensures
            c == self.spec_capacity_in_bytes(),
    {
        (self.capacity_in_bytes_and_defined_bit_ >> 1) & 0x3FFF_FFFF
    }

    /// Reads the defined flag from the position the flat entry-point
    /// surface writes, bit 31 of the capacity-and-defined word.
    pub fn defined_bit(&self) -> (b: bool)
        ensures
            b == spec_bit32(self.capacity_in_bytes_and_defined_bit_, 31),
    {
        bit32(self.capacity_in_bytes_and_defined_bit_, 31)
    }
}

} // verus!
