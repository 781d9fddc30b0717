//! Words as the bytes that are handed to the device.
//!
//! The kernel reads its cells and its parameters as 32-bit words. A buffer is
//! filled from bytes, so each array of words is passed on as its image in
//! memory, made by `bytemuck::cast_slice` without a copy.

use vstd::prelude::*;

verus! {

/// The byte of `word` at `place`, counted from the least significant byte.
pub open spec fn word_byte(word: u32, place: int) -> u8 {
    if place == 0 {
        (word % 0x100) as u8
    } else if place == 1 {
        (word / 0x100 % 0x100) as u8
    } else if place == 2 {
        (word / 0x1_0000 % 0x100) as u8
    } else {
        (word / 0x100_0000 % 0x100) as u8
    }
}

/// The words laid out one after another, each with its least significant
/// byte first.
pub open spec fn little_endian_image(words: Seq<u32>) -> Seq<u8> {
    Seq::new(4 * words.len(), |i: int| word_byte(words[i / 4], i % 4))
}

/// The words laid out one after another, each with its most significant
/// byte first.
pub open spec fn big_endian_image(words: Seq<u32>) -> Seq<u8> {
    Seq::new(4 * words.len(), |i: int| word_byte(words[i / 4], 3 - i % 4))
}

/// Whether `bytes` is what `words` looks like in memory, on a machine of
/// either byte order.
pub open spec fn is_memory_image(bytes: Seq<u8>, words: Seq<u32>) -> bool {
    bytes == little_endian_image(words) || bytes == big_endian_image(words)
}

/// Calls `bytemuck::cast_slice` from `u32` to `u8`, which returns the same
/// memory as a slice of bytes, four for each word, and cannot fail for this
/// pair of types. The contract claims that the bytes are the words in the
/// machine's byte order, which is one of the two.
#[verifier::external_body]
pub(crate) fn words_as_bytes(words: &[u32]) -> (bytes: &[u8])
    ensures
        is_memory_image(bytes@, words@),
{
    bytemuck::cast_slice(words)
}

/// An image has four bytes for each word.
pub proof fn lemma_image_length(bytes: Seq<u8>, words: Seq<u32>)
    requires
        is_memory_image(bytes, words),
    ensures
        bytes.len() == 4 * words.len(),
{
}

/// A word is what its four bytes say: the bytes at the places 0 to 3 are
/// its digits to the base 256.
pub proof fn lemma_word_from_bytes(word: u32)
    ensures
        word == word_byte(word, 0) + 0x100 * word_byte(word, 1) + 0x1_0000 * word_byte(word, 2)
            + 0x100_0000 * word_byte(word, 3),
{
}

} // verus!
