//! Words of 32 bits and the bytes that store them.

use vstd::endian::{endianness, Endian};
use vstd::prelude::*;

verus! {

/// The word that four bytes spell when the first is the least significant.
pub open spec fn le_word(b0: u8, b1: u8, b2: u8, b3: u8) -> u32 {
    (b0 as int + b1 as int * 0x100 + b2 as int * 0x1_0000 + b3 as int * 0x100_0000) as u32
}

/// The word that four bytes spell when the first is the most significant.
pub open spec fn be_word(b0: u8, b1: u8, b2: u8, b3: u8) -> u32 {
    le_word(b3, b2, b1, b0)
}

/// The `i`-th word of `bytes`, read in the given order.
pub open spec fn word_at(bytes: Seq<u8>, i: int, order: Endian) -> u32
    recommends
        0 <= i,
        4 * i + 4 <= bytes.len(),
{
    match order {
        Endian::Little => le_word(
            bytes[4 * i],
            bytes[4 * i + 1],
            bytes[4 * i + 2],
            bytes[4 * i + 3],
        ),
        Endian::Big => be_word(bytes[4 * i], bytes[4 * i + 1], bytes[4 * i + 2], bytes[4 * i + 3]),
    }
}

/// Byte `k` of a word, counted from the least significant one.
pub open spec fn word_byte(word: u32, k: int) -> u8
    recommends
        0 <= k < 4,
{
    if k == 0 {
        (word as int % 0x100) as u8
    } else if k == 1 {
        (word as int / 0x100 % 0x100) as u8
    } else if k == 2 {
        (word as int / 0x1_0000 % 0x100) as u8
    } else {
        (word as int / 0x100_0000 % 0x100) as u8
    }
}

/// Byte `k` of a word as this machine keeps it in memory.
pub open spec fn stored_byte(word: u32, k: int) -> u8
    recommends
        0 <= k < 4,
{
    match endianness() {
        Endian::Little => word_byte(word, k),
        Endian::Big => word_byte(word, 3 - k),
    }
}

/// The bytes that a run of words occupies in this machine's memory: four per
/// word, the words in their order.
pub open spec fn stored_bytes(words: Seq<u32>) -> Seq<u8> {
    Seq::new(4 * words.len(), |i: int| stored_byte(words[i / 4], i % 4))
}

/// Copies out the memory of a run of words with `bytemuck::cast_slice`.
///
/// The cast views the same memory as bytes. A byte has no alignment to
/// violate and any number of words is a whole number of bytes, so the cast
/// never fails. The postcondition says that the result is that memory: four
/// bytes for each word, laid out as this machine stores a word.
#[verifier::external_body]
pub(crate) fn words_to_bytes(words: &[u32]) -> (bytes: Vec<u8>)
    ensures
        bytes@ == stored_bytes(words@),
{
    bytemuck::cast_slice::<u32, u8>(words).to_vec()
}

/// What is stored can be read back: the bytes of a run of words, read as
/// words in this machine's order, are the words.
pub proof fn lemma_stored_bytes_read_back(words: Seq<u32>, i: int)
    requires
        0 <= i < words.len(),
    ensures
        stored_bytes(words).len() == 4 * words.len(),
        word_at(stored_bytes(words), i, endianness()) == words[i],
{
    let word = words[i];
    assert(le_word(word_byte(word, 0), word_byte(word, 1), word_byte(word, 2), word_byte(word, 3))
        == word);
}

} // verus!
