//! Measuring a null-terminated byte sequence.
//!
//! The array variant's convenience setter attaches a cell to a
//! null-terminated sequence of bytes and records its measured length plus
//! one.  The measure is the index of the first zero byte.

use vstd::prelude::*;

verus! {

/// The index of the first zero byte of `s` (the length of `s` read as a
/// null-terminated string); the length of `s` itself when no byte is zero.
pub open spec fn cstring_len(s: Seq<u8>) -> nat
    decreases s.len(),
{
    if s.len() == 0 {
        0
    } else if s[0] == 0u8 {
        0
    } else {
        (1 + cstring_len(s.skip(1))) as nat
    }
}

/// The measure is exactly the position of the first zero byte: where `s[i]`
/// is zero and no earlier byte is, the measure is `i`.
pub proof fn lemma_cstring_len_at(s: Seq<u8>, i: int)
    requires
        0 <= i < s.len(),
        s[i] == 0u8,
        forall|j: int| 0 <= j < i ==> s[j] != 0u8,
    ensures
        cstring_len(s) == i,
    decreases i,
{
    if i == 0 {
    } else {
        assert(s[0] != 0u8);
        assert(s.skip(1)[i - 1] == s[i]);
        assert(forall|j: int| 0 <= j < i - 1 ==> s.skip(1)[j] == s[j + 1]);
        lemma_cstring_len_at(s.skip(1), i - 1);
    }
}

/// Walks `bytes` to its first zero byte and returns that index, as the
/// measured length of a null-terminated string.
pub fn cstring_length(bytes: &[u8]) -> (n: usize)
    requires
        exists|k: int| 0 <= k < bytes@.len() && bytes@[k] == 0u8,
    ensures
        n == cstring_len(bytes@),
        n < bytes@.len(),
        bytes@[n as int] == 0u8,
        forall|j: int| 0 <= j < n ==> bytes@[j] != 0u8,
{
    let mut i: usize = 0;
    loop
        invariant
            0 <= i <= bytes@.len(),
            forall|j: int| 0 <= j < i ==> bytes@[j] != 0u8,
            exists|k: int| 0 <= k < bytes@.len() && bytes@[k] == 0u8,
        decreases bytes@.len() - i,
    {
        proof {
            let k = choose|k: int| 0 <= k < bytes@.len() && bytes@[k] == 0u8;
            assert(k >= i);
        }
        if bytes[i] == 0 {
            proof {
                lemma_cstring_len_at(bytes@, i as int);
            }
            return i;
        }
        i = i + 1;
    }
}

} // verus!
