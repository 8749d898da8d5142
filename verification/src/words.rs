//! Packing of byte buffers into the 32-bit words that the flash is
//! programmed with.
//!
//! The flash is written one word at a time. A buffer is split into 4-byte
//! chunks; each chunk becomes one word, with the first byte of the chunk in
//! the word's least significant byte. A trailing chunk of 1 to 3 bytes is
//! padded up to a full word with the erased fill value, so that programming
//! the padded bytes leaves the corresponding flash cells untouched.

use vstd::prelude::*;

use crate::layout::ERASED_BYTE;

verus! {

/// The word that the bytes `b0..b3` assemble to, `b0` in the least
/// significant byte.
pub open spec fn word_of_bytes(b0: u8, b1: u8, b2: u8, b3: u8) -> u32 {
    (b0 as u32) | ((b1 as u32) << 8) | ((b2 as u32) << 16) | ((b3 as u32) << 24)
}

/// Byte `i` of `bytes`, or the erased fill value where `i` is past the end.
pub open spec fn byte_or_fill(bytes: Seq<u8>, i: int) -> u8 {
    if i < bytes.len() {
        bytes[i]
    } else {
        ERASED_BYTE
    }
}

/// The words that `bytes` is programmed as: one word per 4-byte chunk, the
/// trailing partial chunk padded with the erased fill value.
pub open spec fn packed_words(bytes: Seq<u8>) -> Seq<u32> {
    Seq::new(
        ((bytes.len() + 3) / 4) as nat,
        |w: int|
            word_of_bytes(
                byte_or_fill(bytes, 4 * w),
                byte_or_fill(bytes, 4 * w + 1),
                byte_or_fill(bytes, 4 * w + 2),
                byte_or_fill(bytes, 4 * w + 3),
            ),
    )
}

/// Byte `i` of the word `w`, counting from the least significant byte.
pub open spec fn byte_of_word(w: u32, i: int) -> u8 {
    ((w >> (8 * i)) & 0xff) as u8
}

/// Assemble one word from four bytes, `b0` in the least significant byte.
pub fn pack_word(b0: u8, b1: u8, b2: u8, b3: u8) -> (r: u32)
    ensures
        r == word_of_bytes(b0, b1, b2, b3),
{
    (b0 as u32) | ((b1 as u32) << 8) | ((b2 as u32) << 16) | ((b3 as u32) << 24)
}

/// Split one word into its four bytes, least significant byte first.
pub fn unpack_word(w: u32) -> (r: (u8, u8, u8, u8))
    ensures
        r.0 == byte_of_word(w, 0),
        r.1 == byte_of_word(w, 1),
        r.2 == byte_of_word(w, 2),
        r.3 == byte_of_word(w, 3),
{
    proof {
        assert(w & 0xff < 256 && (w >> 8) & 0xff < 256 && (w >> 16) & 0xff < 256 && (w >> 24)
            & 0xff < 256) by (bit_vector);
        assert(w >> 0 == w) by (bit_vector);
    }
    ((w & 0xff) as u8, ((w >> 8) & 0xff) as u8, ((w >> 16) & 0xff) as u8, ((w >> 24) & 0xff) as u8)
}

/// Packing four bytes into a word and taking the word apart again returns
/// the bytes unchanged.
pub proof fn lemma_word_round_trip(b0: u8, b1: u8, b2: u8, b3: u8)
    ensures
        byte_of_word(word_of_bytes(b0, b1, b2, b3), 0) == b0,
        byte_of_word(word_of_bytes(b0, b1, b2, b3), 1) == b1,
        byte_of_word(word_of_bytes(b0, b1, b2, b3), 2) == b2,
        byte_of_word(word_of_bytes(b0, b1, b2, b3), 3) == b3,
{
    assert(((((b0 as u32) | ((b1 as u32) << 8) | ((b2 as u32) << 16) | ((b3 as u32) << 24)) >> 0)
        & 0xff) as u8 == b0) by (bit_vector);
    assert(((((b0 as u32) | ((b1 as u32) << 8) | ((b2 as u32) << 16) | ((b3 as u32) << 24)) >> 8)
        & 0xff) as u8 == b1) by (bit_vector);
    assert(((((b0 as u32) | ((b1 as u32) << 8) | ((b2 as u32) << 16) | ((b3 as u32) << 24)) >> 16)
        & 0xff) as u8 == b2) by (bit_vector);
    assert(((((b0 as u32) | ((b1 as u32) << 8) | ((b2 as u32) << 16) | ((b3 as u32) << 24)) >> 24)
        & 0xff) as u8 == b3) by (bit_vector);
}

} // verus!
