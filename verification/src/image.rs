//! The binary image codec: words as four-byte big-endian groups.
//!
//! A machine-state image is a flat byte stream, four bytes per word, most
//! significant byte first, one word per cell in ascending order, with no
//! header or magic number.  The functions here define and implement the
//! word/byte correspondence; the devices and the bus build their image
//! operations on top of them.

use vstd::prelude::*;
use crate::types::Word;

verus! {

/// The four big-endian bytes of a word, most significant first.
pub open spec fn word_to_be_bytes(w: Word) -> Seq<u8> {
    seq![
        ((w >> 24) & 0xFF) as u8,
        ((w >> 16) & 0xFF) as u8,
        ((w >> 8) & 0xFF) as u8,
        (w & 0xFF) as u8,
    ]
}

/// The word assembled from four big-endian bytes.
pub open spec fn word_from_be_bytes(b0: u8, b1: u8, b2: u8, b3: u8) -> Word {
    ((b0 as u32) << 24) | ((b1 as u32) << 16) | ((b2 as u32) << 8) | (b3 as u32)
}

/// The byte image of a word sequence: each word's four big-endian bytes, in
/// word order.
pub open spec fn words_to_bytes(ws: Seq<Word>) -> Seq<u8>
    decreases ws.len(),
{
    if ws.len() == 0 {
        Seq::empty()
    } else {
        word_to_be_bytes(ws[0]) + words_to_bytes(ws.drop_first())
    }
}

/// The words of a byte image, one per full four-byte group, in order.
pub open spec fn bytes_to_words(bs: Seq<u8>) -> Seq<Word>
    decreases bs.len(),
{
    if bs.len() < 4 {
        Seq::empty()
    } else {
        seq![word_from_be_bytes(bs[0], bs[1], bs[2], bs[3])] + bytes_to_words(bs.skip(4))
    }
}

/// Reassembling a word's big-endian bytes gives the word back.
pub proof fn lemma_word_round_trip(w: Word)
    ensures
        word_from_be_bytes(
            (((w >> 24) & 0xFF) as u8),
            (((w >> 16) & 0xFF) as u8),
            (((w >> 8) & 0xFF) as u8),
            ((w & 0xFF) as u8),
        ) == w,
{
    assert((((((w >> 24) & 0xFF) as u8) as u32) << 24) | (((((w >> 16) & 0xFF) as u8) as u32)
        << 16) | (((((w >> 8) & 0xFF) as u8) as u32) << 8) | (((w & 0xFF) as u8) as u32) == w)
        by (bit_vector);
}

/// A word image is four bytes per word.
pub proof fn lemma_words_to_bytes_len(ws: Seq<Word>)
    ensures
        words_to_bytes(ws).len() == 4 * ws.len(),
    decreases ws.len(),
{
    if ws.len() > 0 {
        lemma_words_to_bytes_len(ws.drop_first());
    }
}

/// Appending one word to a sequence appends its four bytes to the image.
pub proof fn lemma_words_to_bytes_push(ws: Seq<Word>, w: Word)
    ensures
        words_to_bytes(ws.push(w)) == words_to_bytes(ws) + word_to_be_bytes(w),
    decreases ws.len(),
{
    if ws.len() == 0 {
        assert(ws.push(w).drop_first() =~= ws);
        assert(words_to_bytes(ws.push(w)) =~= words_to_bytes(ws) + word_to_be_bytes(w));
    } else {
        assert(ws.push(w).drop_first() =~= ws.drop_first().push(w));
        lemma_words_to_bytes_push(ws.drop_first(), w);
        assert(words_to_bytes(ws.push(w)) =~= words_to_bytes(ws) + word_to_be_bytes(w));
    }
}

/// A byte image decodes to one word per full four-byte group.
pub proof fn lemma_bytes_to_words_len(bs: Seq<u8>)
    ensures
        bytes_to_words(bs).len() == bs.len() / 4,
    decreases bs.len(),
{
    if bs.len() >= 4 {
        lemma_bytes_to_words_len(bs.skip(4));
    }
}

/// The word at index `i` of a decoded image is assembled from the four
/// bytes of group `i`.
pub proof fn lemma_bytes_to_words_index(bs: Seq<u8>, i: int)
    requires
        0 <= i < bs.len() / 4,
    ensures
        bytes_to_words(bs)[i] == word_from_be_bytes(
            bs[4 * i],
            bs[4 * i + 1],
            bs[4 * i + 2],
            bs[4 * i + 3],
        ),
    decreases bs.len(),
{
    lemma_bytes_to_words_len(bs);
    if i > 0 {
        lemma_bytes_to_words_index(bs.skip(4), i - 1);
    }
}

/// Image round trip: decoding the image of any word sequence gives the
/// sequence back, and the image's length is four bytes per word, so it is
/// always a whole number of groups.
pub proof fn lemma_image_round_trip(ws: Seq<Word>)
    ensures
        bytes_to_words(words_to_bytes(ws)) == ws,
        words_to_bytes(ws).len() == 4 * ws.len(),
        words_to_bytes(ws).len() % 4 == 0,
    decreases ws.len(),
{
    lemma_words_to_bytes_len(ws);
    if ws.len() == 0 {
        assert(bytes_to_words(words_to_bytes(ws)) =~= ws);
    } else {
        let bs = words_to_bytes(ws);
        lemma_word_round_trip(ws[0]);
        assert(bs.skip(4) =~= words_to_bytes(ws.drop_first()));
        lemma_image_round_trip(ws.drop_first());
        assert(bytes_to_words(bs) =~= ws);
    }
}

/// Appends the four big-endian bytes of `w` to `out`.
pub fn push_be_word(out: &mut Vec<u8>, w: Word)
    ensures
        final(out)@ == old(out)@ + word_to_be_bytes(w),
{
    out.push(((w >> 24) & 0xFF) as u8);
    out.push(((w >> 16) & 0xFF) as u8);
    out.push(((w >> 8) & 0xFF) as u8);
    out.push((w & 0xFF) as u8);
    proof {
        assert(out@ =~= old(out)@ + word_to_be_bytes(w));
    }
}

/// Reads the big-endian word whose four bytes start at byte position `p`.
pub fn be_word_at(bs: &Vec<u8>, p: usize) -> (w: Word)
    requires
        p + 4 <= bs@.len(),
    ensures
        w == word_from_be_bytes(bs@[p as int], bs@[p + 1], bs@[p + 2], bs@[p + 3]),
{
    let n = bs.len();
    assert(p + 4 <= n);
    ((bs[p] as u32) << 24) | ((bs[p + 1] as u32) << 16) | ((bs[p + 2] as u32) << 8) | (bs[p
        + 3] as u32)
}

} // verus!
