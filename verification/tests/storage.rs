use rfast::add;
use rfast::bits::{bit32, set_bit32};
use rfast::cstring::cstring_length;
use rfast::get_array_is_empty;
use rfast::get_decimal_exponent;
use rfast::get_decimal_mantissa;
use rfast::set_array_defined_bit;
use rfast::set_decimal_defined_bit;
use rfast::set_decimal_exponent;
use rfast::set_decimal_mantissa;
use rfast::set_decimal_mantissa_and_exponent;
use rfast::set_decimal_present;
use rfast::set_string_value;
use rfast::set_string_value_with_size;
use rfast::set_uint64_defined_bit;
use rfast::set_uint64_present;
use rfast::set_uint64_set_value;
use rfast::value_storage::ValueStorage;
use rfast::value_storage::ValueStorageArray;

#[test]
fn it_works() {
    let result = add(2, 2);
    assert_eq!(result, 4);
}

#[test]
fn cell_is_sixteen_bytes_with_word_alignment() {
    assert_eq!(std::mem::size_of::<ValueStorage>(), 16);
    assert_eq!(std::mem::align_of::<ValueStorage>(), 8);
}

#[test]
fn zero_initialized_cell_reads_absent_and_undefined() {
    let c = ValueStorage::default();
    assert!(get_array_is_empty(&c));
    assert!(!c.is_defined());
    assert_eq!(c.as_uint64().present_, 0);
    assert_eq!(c.as_uint64().defined_bit_, 0);
    assert_eq!(c.as_uint64().content_, 0);
}

#[test]
fn uint_defined_bit_round_trips_and_keeps_value() {
    let mut c = ValueStorage::default();
    set_uint64_set_value(&mut c, 0xDEAD_BEEF_0123_4567);
    set_uint64_defined_bit(&mut c, true);
    assert!(c.is_defined());
    assert_eq!(c.get(), 0xDEAD_BEEF_0123_4567);
    set_uint64_defined_bit(&mut c, false);
    assert!(!c.is_defined());
    assert_eq!(c.get(), 0xDEAD_BEEF_0123_4567);
}

#[test]
fn uint_value_round_trips() {
    let mut c = ValueStorage::default();
    for v in [0u64, 1, 42, u64::MAX, 0x8000_0000_0000_0000] {
        set_uint64_set_value(&mut c, v);
        assert_eq!(c.get(), v);
    }
}

#[test]
fn uint_scenario_forty_two_defined_present() {
    let mut c = ValueStorage::default();
    set_uint64_set_value(&mut c, 42);
    set_uint64_defined_bit(&mut c, true);
    set_uint64_present(&mut c, true);
    assert_eq!(c.as_uint64().content_, 42);
    assert_eq!(c.as_uint64().defined_bit_, 1);
    assert_eq!(c.as_uint64().present_, 1);
}

#[test]
fn uint_present_bit_keeps_other_words() {
    let mut c = ValueStorage::default();
    set_uint64_set_value(&mut c, 77);
    set_uint64_defined_bit(&mut c, true);
    set_uint64_present(&mut c, true);
    set_uint64_present(&mut c, false);
    assert_eq!(c.as_uint64().present_, 0);
    assert_eq!(c.as_uint64().defined_bit_, 1);
    assert_eq!(c.as_uint64().content_, 77);
}

#[test]
fn decimal_combined_setter_reads_back() {
    let mut c = ValueStorage::default();
    set_decimal_mantissa_and_exponent(&mut c, -12345, -3);
    assert_eq!(get_decimal_mantissa(&c), -12345);
    assert_eq!(get_decimal_exponent(&c), -3);
}

#[test]
fn decimal_extreme_values_read_back() {
    let mut c = ValueStorage::default();
    set_decimal_mantissa_and_exponent(&mut c, i64::MIN, i16::MIN);
    assert_eq!(get_decimal_mantissa(&c), i64::MIN);
    assert_eq!(get_decimal_exponent(&c), i16::MIN);
    set_decimal_mantissa_and_exponent(&mut c, i64::MAX, i16::MAX);
    assert_eq!(get_decimal_mantissa(&c), i64::MAX);
    assert_eq!(get_decimal_exponent(&c), i16::MAX);
}

#[test]
fn decimal_combined_setter_equals_either_order() {
    let mut combined = ValueStorage::default();
    set_decimal_present(&mut combined, true);
    set_decimal_defined_bit(&mut combined, true);
    set_decimal_mantissa_and_exponent(&mut combined, -9_876_543_210, 7);

    let mut mantissa_first = ValueStorage::default();
    set_decimal_present(&mut mantissa_first, true);
    set_decimal_defined_bit(&mut mantissa_first, true);
    set_decimal_mantissa(&mut mantissa_first, -9_876_543_210);
    set_decimal_exponent(&mut mantissa_first, 7);

    let mut exponent_first = ValueStorage::default();
    set_decimal_present(&mut exponent_first, true);
    set_decimal_defined_bit(&mut exponent_first, true);
    set_decimal_exponent(&mut exponent_first, 7);
    set_decimal_mantissa(&mut exponent_first, -9_876_543_210);

    assert_eq!(combined, mantissa_first);
    assert_eq!(combined, exponent_first);
}

#[test]
fn decimal_defined_bit_keeps_exponent_and_mantissa() {
    let mut c = ValueStorage::default();
    set_decimal_mantissa_and_exponent(&mut c, 555, -2);
    set_decimal_present(&mut c, true);
    set_decimal_defined_bit(&mut c, true);
    assert_eq!(get_decimal_mantissa(&c), 555);
    assert_eq!(get_decimal_exponent(&c), -2);
    assert_eq!(c.as_decimal().defined_bit_, 1);
    assert_eq!(c.as_decimal().present_, 1);
    set_decimal_defined_bit(&mut c, false);
    assert_eq!(get_decimal_mantissa(&c), 555);
    assert_eq!(get_decimal_exponent(&c), -2);
    assert_eq!(c.as_decimal().defined_bit_, 0);
}

#[test]
fn decimal_exponent_keeps_defined_word() {
    let mut c = ValueStorage::default();
    set_decimal_defined_bit(&mut c, true);
    set_decimal_exponent(&mut c, -32768);
    assert_eq!(c.as_decimal().defined_bit_, 1);
    assert_eq!(get_decimal_exponent(&c), -32768);
}

#[test]
fn cstring_measures_to_first_zero_byte() {
    assert_eq!(cstring_length(b"ABC\0"), 3);
    assert_eq!(cstring_length(b"\0"), 0);
    assert_eq!(cstring_length(b"A\0B\0"), 1);
}

#[test]
fn string_value_measures_and_marks_view() {
    let mut c = ValueStorage::default();
    set_string_value(&mut c, 0x1000, b"ABC\0");
    assert_eq!(c.as_array().len_, 4);
    assert_eq!(c.as_array().content_, 0x1000);
    assert_eq!(c.capacity_in_bytes(), 0);
    assert!(c.as_array().defined_bit());
    assert!(!get_array_is_empty(&c));
}

#[test]
fn string_value_with_size_zero_is_present_empty_payload() {
    let mut c = ValueStorage::default();
    set_string_value_with_size(&mut c, 0x2000, 0);
    assert_eq!(c.as_array().len_, 1);
    assert!(!get_array_is_empty(&c));
}

#[test]
fn empty_reading_ignores_content_word() {
    let cells = [
        ValueStorage { present_or_len_: 0, flags_: 0, payload_: 0 },
        ValueStorage { present_or_len_: 0, flags_: 0xFFFF_FFFF, payload_: u64::MAX },
        ValueStorage { present_or_len_: 0, flags_: 0x8000_0001, payload_: 0x1234 },
    ];
    for c in cells {
        assert!(get_array_is_empty(&c));
    }
    let full = ValueStorage { present_or_len_: 1, flags_: 0, payload_: 0 };
    assert!(!get_array_is_empty(&full));
}

#[test]
fn array_defined_bit_sits_at_bit_thirty_one() {
    let mut c = ValueStorage::default();
    set_array_defined_bit(&mut c, true);
    assert_eq!(c.flags_, 0x8000_0000);
    assert!(!c.is_defined());
    set_array_defined_bit(&mut c, false);
    assert_eq!(c.flags_, 0);
}

#[test]
fn capacity_high_bit_does_not_bleed_into_capacity() {
    let mut a = ValueStorageArray { len_: 0, capacity_in_bytes_and_defined_bit_: 0, content_: 0 };
    a.set_capacity_in_bytes(0x7FFF_FFFF);
    assert_eq!(a.capacity_in_bytes(), 0x3FFF_FFFF);
    assert!(!a.defined_bit());
}

#[test]
fn capacity_keeps_both_defined_positions() {
    let mut a = ValueStorageArray {
        len_: 5,
        capacity_in_bytes_and_defined_bit_: 0x8000_0001,
        content_: 9,
    };
    a.set_capacity_in_bytes(12);
    assert_eq!(a.capacity_in_bytes(), 12);
    assert_eq!(a.capacity_in_bytes_and_defined_bit_ & 1, 1);
    assert!(a.defined_bit());
    assert_eq!(a.len_, 5);
    assert_eq!(a.content_, 9);
}

#[test]
fn array_set_defined_keeps_capacity() {
    let mut a = ValueStorageArray { len_: 0, capacity_in_bytes_and_defined_bit_: 0, content_: 0 };
    a.set_capacity_in_bytes(123);
    a.set_defined(true);
    assert_eq!(a.capacity_in_bytes(), 123);
    assert!(a.defined_bit());
    a.set_defined(false);
    assert_eq!(a.capacity_in_bytes(), 123);
    assert!(!a.defined_bit());
}

#[test]
fn factories_set_their_flags() {
    let n = ValueStorage::new_numeric(31337);
    assert_eq!(n.as_uint64().content_, 31337);
    assert_eq!(n.as_uint64().present_, 1);
    assert_eq!(n.as_uint64().defined_bit_, 1);

    let s = ValueStorage::new_string(0xBEEF);
    assert_eq!(s.as_array().content_, 0xBEEF);
    assert_eq!(s.as_array().len_, 1);
    assert!(s.is_defined());
    assert!(!s.is_empty());
}

#[test]
fn array_length_follows_length_plus_one() {
    let mut c = ValueStorage::default();
    assert_eq!(c.array_length(), 0);
    c.set_array_length(0);
    assert_eq!(c.array_length(), 0);
    assert!(!c.is_empty());
    c.set_array_length(41);
    assert_eq!(c.array_length(), 41);
    c.present(false);
    assert!(c.is_empty());
    assert_eq!(c.array_length(), 0);
    c.present(true);
    assert_eq!(c.array_length(), 0);
    assert!(!c.is_empty());
}

#[test]
fn internal_defined_helper_uses_bit_zero() {
    let mut c = ValueStorage::default();
    c.defined(true);
    assert!(c.is_defined());
    assert_eq!(c.flags_, 1);
    c.defined(false);
    assert!(!c.is_defined());
    assert_eq!(c.flags_, 0);
}

#[test]
fn uint32_view_takes_low_payload_half() {
    let mut c = ValueStorage::default();
    c.set(0xAAAA_BBBB_CCCC_DDDD);
    assert_eq!(c.as_uint32().content_, 0xCCCC_DDDD);
}

#[test]
fn templateref_view_combines_first_words() {
    let c = ValueStorage { present_or_len_: 0x0123_4567, flags_: 0x89AB_CDEF, payload_: 55 };
    let t = c.as_templateref();
    assert_eq!(t.instruction_, 0x89AB_CDEF_0123_4567);
    assert_eq!(t.content_, 55);
}

#[test]
fn bit_helpers_read_and_write_single_bits() {
    let w = set_bit32(0, 16, true);
    assert_eq!(w, 0x0001_0000);
    assert!(bit32(w, 16));
    assert!(!bit32(w, 15));
    assert!(!bit32(w, 17));
    let w2 = set_bit32(w, 16, false);
    assert_eq!(w2, 0);
}
