//! Byte images of 32-bit words, as they are handed to the graphics device.

use vstd::prelude::*;

verus! {

/// The four bytes of `w`, least significant first.
pub open spec fn le_word(w: u32) -> Seq<u8> {
    seq![
        (w % 256) as u8,
        (w / 256 % 256) as u8,
        (w / 65536 % 256) as u8,
        (w / 16777216 % 256) as u8,
    ]
}

/// The four bytes of `w`, most significant first.
pub open spec fn be_word(w: u32) -> Seq<u8> {
    seq![
        (w / 16777216 % 256) as u8,
        (w / 65536 % 256) as u8,
        (w / 256 % 256) as u8,
        (w % 256) as u8,
    ]
}

/// The words of `words` laid out one after the other, each least significant byte first.
pub open spec fn le_words(words: Seq<u32>) -> Seq<u8>
    decreases words.len(),
{
    if words.len() == 0 {
        Seq::empty()
    } else {
        le_words(words.drop_last()) + le_word(words.last())
    }
}

/// The words of `words` laid out one after the other, each most significant byte first.
pub open spec fn be_words(words: Seq<u32>) -> Seq<u8>
    decreases words.len(),
{
    if words.len() == 0 {
        Seq::empty()
    } else {
        be_words(words.drop_last()) + be_word(words.last())
    }
}

/// `bytes` is the in-memory image of `words` on a machine of either byte order.
pub open spec fn native_image(words: Seq<u32>, bytes: Seq<u8>) -> bool {
    bytes == le_words(words) || bytes == be_words(words)
}

/// Both layouts take four bytes per word.
pub proof fn lemma_image_len(words: Seq<u32>)
    ensures
        le_words(words).len() == 4 * words.len(),
        be_words(words).len() == 4 * words.len(),
    decreases words.len(),
{
    if words.len() > 0 {
        lemma_image_len(words.drop_last());
    }
}

/// Calls `bytemuck::cast_slice::<u32, u8>`, which hands back the memory of the
/// words unchanged, seen as bytes. The claim: the result is the image
/// of the words in the byte order of the machine, which is one of the two orders.
#[verifier::external_body]
pub(crate) fn cast_words(words: &Vec<u32>) -> (bytes: Vec<u8>)
    ensures
        native_image(words@, bytes@),
{
    let image: &[u8] = bytemuck::cast_slice(words.as_slice());
    image.to_vec()
}

/// The byte image of `words` in the machine's byte order.
pub fn words_to_bytes(words: &Vec<u32>) -> (bytes: Vec<u8>)
    ensures
        native_image(words@, bytes@),
        bytes@.len() == 4 * words@.len(),
{
    let bytes = cast_words(words);
    proof {
        lemma_image_len(words@);
    }
    bytes
}

} // verus!
