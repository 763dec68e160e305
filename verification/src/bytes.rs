//! Byte images of GPU words.
//!
//! GPU buffers receive the in-memory bytes of `u32` words, in the machine's
//! byte order. The conversion goes through `bytemuck`; its contract says the
//! bytes are the words' little-endian or big-endian encoding, whichever the
//! machine uses, consistently across the slice.

use vstd::prelude::*;

verus! {

/// The little-endian bytes of one word.
pub open spec fn le_word(w: u32) -> Seq<u8> {
    seq![(w % 256) as u8, ((w / 256) % 256) as u8, ((w / 65536) % 256) as u8, (w / 16777216) as u8]
}

/// The big-endian bytes of one word.
pub open spec fn be_word(w: u32) -> Seq<u8> {
    seq![(w / 16777216) as u8, ((w / 65536) % 256) as u8, ((w / 256) % 256) as u8, (w % 256) as u8]
}

/// The words' bytes, each word in one byte order.
pub open spec fn encode_words(ws: Seq<u32>, big_endian: bool) -> Seq<u8>
    decreases ws.len(),
{
    if ws.len() == 0 {
        seq![]
    } else {
        encode_words(ws.drop_last(), big_endian) + if big_endian {
            be_word(ws.last())
        } else {
            le_word(ws.last())
        }
    }
}

/// `bytes` is the in-memory image of `ws` on a machine of either byte order.
pub open spec fn native_image(ws: Seq<u32>, bytes: Seq<u8>) -> bool {
    bytes == encode_words(ws, false) || bytes == encode_words(ws, true)
}

/// An image holds four bytes per word.
pub proof fn lemma_encode_words_len(ws: Seq<u32>, big_endian: bool)
    ensures
        encode_words(ws, big_endian).len() == 4 * ws.len(),
    decreases ws.len(),
{
    if ws.len() > 0 {
        lemma_encode_words_len(ws.drop_last(), big_endian);
    }
}

/// The in-memory bytes of a slice of words, via `bytemuck::cast_slice`.
///
/// Trusted: `cast_slice::<u32, u8>` reinterprets the slice's memory (it never
/// fails for this pair: `u8` has alignment 1 and size 1), so the result is
/// each word's bytes in the machine's byte order. Which order that is, the
/// contract leaves open.
#[verifier::external_body]
pub(crate) fn cast_words(words: &[u32]) -> (bytes: Vec<u8>)
    ensures
        native_image(words@, bytes@),
{
    bytemuck::cast_slice::<u32, u8>(words).to_vec()
}

/// The in-memory bytes of `words`, four per word.
pub fn words_to_bytes(words: &[u32]) -> (bytes: Vec<u8>)
    ensures
        native_image(words@, bytes@),
        bytes@.len() == 4 * words@.len(),
{
    let bytes = cast_words(words);
    proof {
        lemma_encode_words_len(words@, false);
        lemma_encode_words_len(words@, true);
    }
    bytes
}

} // verus!
