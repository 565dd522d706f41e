//! Byte-order helpers for card data.

use vstd::prelude::*;

verus! {

/// The value with its two 16-bit halves exchanged.
pub open spec fn half_words_swapped(v: u32) -> u32 {
    ((v & 0x0000FFFF) << 16) | ((v & 0xFFFF0000) >> 16)
}

/// The value with its four bytes in reverse order.
pub open spec fn bytes_reversed(v: u32) -> u32 {
    ((v & 0x000000FF) << 24) | ((v & 0x0000FF00) << 8) | ((v & 0x00FF0000) >> 8) | ((v
        & 0xFF000000) >> 24)
}

/// Exchange the two 16-bit halves of a word.
pub fn swap_half_word_byte_sequence_u32(value: u32) -> (r: u32)
    ensures
        r == half_words_swapped(value),
        r & 0xFFFF == value >> 16,
        r >> 16 == value & 0xFFFF,
{
    assert(half_words_swapped(value) & 0xFFFF == value >> 16 && half_words_swapped(value) >> 16
        == value & 0xFFFF) by (bit_vector);
    ((value & 0x0000FFFF) << 16) | ((value & 0xFFFF0000) >> 16)
}

/// Reverse the byte order of a word.
pub fn swap_word_byte_sequence_u32(value: u32) -> (r: u32)
    ensures
        r == bytes_reversed(value),
        r & 0xFF == value >> 24,
        (r >> 8) & 0xFF == (value >> 16) & 0xFF,
        (r >> 16) & 0xFF == (value >> 8) & 0xFF,
        r >> 24 == value & 0xFF,
{
    assert(bytes_reversed(value) & 0xFF == value >> 24 && (bytes_reversed(value) >> 8) & 0xFF
        == (value >> 16) & 0xFF && (bytes_reversed(value) >> 16) & 0xFF == (value >> 8) & 0xFF
        && bytes_reversed(value) >> 24 == value & 0xFF) by (bit_vector);
    ((value & 0x000000FF) << 24) | ((value & 0x0000FF00) << 8) | ((value & 0x00FF0000) >> 8) | ((
    value & 0xFF000000) >> 24)
}

/// Exchanging the halves twice gives the word back.
pub proof fn lemma_half_word_swap_involutive(v: u32)
    ensures
        half_words_swapped(half_words_swapped(v)) == v,
{
    assert(half_words_swapped(half_words_swapped(v)) == v) by (bit_vector);
}

/// Reversing the bytes twice gives the word back.
pub proof fn lemma_byte_reverse_involutive(v: u32)
    ensures
        bytes_reversed(bytes_reversed(v)) == v,
{
    assert(bytes_reversed(bytes_reversed(v)) == v) by (bit_vector);
}

} // verus!
