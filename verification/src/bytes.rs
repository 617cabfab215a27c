//! The bytes of 32-bit words, as the machine lays them out in memory.

use vstd::prelude::*;

verus! {

/// The number that the four bytes from `at` on encode, least significant byte first.
pub open spec fn little_endian(bytes: Seq<u8>, at: int) -> int {
    bytes[at] + 0x100 * bytes[at + 1] + 0x1_0000 * bytes[at + 2] + 0x100_0000 * bytes[at + 3]
}

/// The number that the four bytes from `at` on encode, most significant byte first.
pub open spec fn big_endian(bytes: Seq<u8>, at: int) -> int {
    bytes[at + 3] + 0x100 * bytes[at + 2] + 0x1_0000 * bytes[at + 1] + 0x100_0000 * bytes[at]
}

/// Whether `bytes` can be the memory of `words` on some machine: four bytes
/// for each word, in order, each group encoding its word in the machine's
/// byte order, which is the same for all of them.
pub open spec fn native_words(words: Seq<u32>, bytes: Seq<u8>) -> bool {
    &&& bytes.len() == 4 * words.len()
    &&& {
        ||| forall|i: int|
            0 <= i < words.len() ==> little_endian(bytes, 4 * i) == #[trigger] words[i]
        ||| forall|i: int|
            0 <= i < words.len() ==> big_endian(bytes, 4 * i) == #[trigger] words[i]
    }
}

/// `bytemuck::cast_slice` from `u32` to `u8`: the same memory, seen as bytes.
/// The cast cannot fail, since a byte needs no alignment and any number of
/// words is a whole number of bytes. The result has four bytes for each word;
/// their order within a word is the machine's.
#[verifier::external_body]
pub(crate) fn cast_words(words: &[u32]) -> (bytes: &[u8])
    ensures
        native_words(words@, bytes@),
{
    bytemuck::cast_slice(words)
}

} // verus!
