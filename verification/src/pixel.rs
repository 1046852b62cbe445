//! Pixels of the shared-memory buffer: 32-bit ARGB words, stored little-endian.

use vstd::prelude::*;

verus! {

/// Bytes that one pixel occupies in the buffer.
pub const BYTES_PER_PIXEL: u32 = 4;

/// The 32-bit word `(a << 24) | (r << 16) | (g << 8) | b`.
pub open spec fn argb_word(a: u8, r: u8, g: u8, b: u8) -> u32 {
    ((a as u32) << 24) | ((r as u32) << 16) | ((g as u32) << 8) | (b as u32)
}

/// The four bytes of `word`, least significant first.
pub open spec fn word_bytes(word: u32) -> Seq<u8> {
    seq![
        (word & 0xff) as u8,
        ((word >> 8) & 0xff) as u8,
        ((word >> 16) & 0xff) as u8,
        ((word >> 24) & 0xff) as u8,
    ]
}

/// The word whose little-endian bytes are `b0, b1, b2, b3`.
pub open spec fn word_of_bytes(b0: u8, b1: u8, b2: u8, b3: u8) -> u32 {
    (b0 as u32) | ((b1 as u32) << 8) | ((b2 as u32) << 16) | ((b3 as u32) << 24)
}

/// In memory an ARGB word reads blue, green, red, alpha.
pub proof fn lemma_argb_word_bytes(a: u8, r: u8, g: u8, b: u8)
    ensures
        word_bytes(argb_word(a, r, g, b)) == seq![b, g, r, a],
        word_of_bytes(b, g, r, a) == argb_word(a, r, g, b),
{
    let w = argb_word(a, r, g, b);
    assert((w & 0xff) as u8 == b && ((w >> 8) & 0xff) as u8 == g && ((w >> 16) & 0xff) as u8 == r
        && ((w >> 24) & 0xff) as u8 == a && (b as u32) | ((g as u32) << 8) | ((r as u32) << 16) | ((
    a as u32) << 24) == w) by (bit_vector)
        requires
            w == ((a as u32) << 24) | ((r as u32) << 16) | ((g as u32) << 8) | (b as u32),
    ;
}

/// A word is the word of its own bytes.
pub proof fn lemma_word_bytes_roundtrip(word: u32)
    ensures
        word_bytes(word).len() == 4,
        word_of_bytes(
            word_bytes(word)[0],
            word_bytes(word)[1],
            word_bytes(word)[2],
            word_bytes(word)[3],
        ) == word,
{
    assert(((word & 0xff) as u8 as u32) | (((word >> 8) & 0xff) as u8 as u32) << 8 | (((word >> 16)
        & 0xff) as u8 as u32) << 16 | (((word >> 24) & 0xff) as u8 as u32) << 24 == word)
        by (bit_vector);
}

/// Packs one pixel into its ARGB word.
pub fn pack_argb(a: u8, r: u8, g: u8, b: u8) -> (word: u32)
    ensures
        word == argb_word(a, r, g, b),
{
    ((a as u32) << 24) | ((r as u32) << 16) | ((g as u32) << 8) | (b as u32)
}

/// The ARGB word of a pixel given as red, green, blue, alpha.
pub open spec fn rgba_word(rgba: (u8, u8, u8, u8)) -> u32 {
    argb_word(rgba.3, rgba.0, rgba.1, rgba.2)
}

/// Packs a pixel given as red, green, blue, alpha into its ARGB word.
pub fn pack_rgba(rgba: (u8, u8, u8, u8)) -> (word: u32)
    ensures
        word == rgba_word(rgba),
{
    pack_argb(rgba.3, rgba.0, rgba.1, rgba.2)
}

} // verus!
