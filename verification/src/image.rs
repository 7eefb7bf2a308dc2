//! The program loader: a program image is a flat stream of little-endian
//! 16-bit words, with no header and no length prefix.
//!
//! An image whose length is odd is refused as corrupt; no byte is dropped in
//! silence.

use byteorder::{ByteOrder, LittleEndian};
use vstd::prelude::*;
use vstd::slice::slice_subrange;
use crate::error::ErrorKind;

verus! {

/// The word whose low byte is `low` and whose high byte is `high`.
pub open spec fn le_word(low: u8, high: u8) -> u16 {
    (low + 256 * high) as u16
}

/// The words that an image of even length holds, in image order: word `i` is
/// made of the bytes `2 * i` (low) and `2 * i + 1` (high).
pub open spec fn image_words(bytes: Seq<u8>) -> Seq<u16> {
    Seq::new(bytes.len() / 2, |i: int| le_word(bytes[2 * i], bytes[2 * i + 1]))
}

/// Calls `byteorder::LittleEndian::read_u16` (the `ByteOrder` trait's method).
/// Trusted, not proved: on a buffer of at least two bytes the call returns
/// the little-endian reading of the first two, `buf[0] + 256 * buf[1]`. On a
/// shorter buffer it panics, which the precondition rules out.
#[verifier::external_body]
fn read_u16_le(buf: &[u8]) -> (word: u16)
    requires
        buf@.len() >= 2,
    ensures
        word == le_word(buf@[0], buf@[1]),
{
    LittleEndian::read_u16(buf)
}

/// Decodes a program image into the initial program memory.
///
/// Succeeds exactly on the images of even length, with the words in image
/// order; every image of odd length is refused with `CorruptImage`.
pub fn load_image(bytes: &[u8]) -> (image: Result<Vec<u16>, ErrorKind>)
    ensures
        match image {
            Ok(words) => bytes@.len() % 2 == 0 && words@ == image_words(bytes@),
            Err(kind) => bytes@.len() % 2 == 1 && kind == ErrorKind::CorruptImage,
        },
{
    if bytes.len() % 2 != 0 {
        return Err(ErrorKind::CorruptImage);
    }
    let count: usize = bytes.len() / 2;
    let mut words: Vec<u16> = Vec::with_capacity(count);
    let mut i: usize = 0;
    while i < count
        invariant
            bytes.len() == 2 * count,
            i <= count,
            words@.len() == i,
            forall|k: int|
                0 <= k < i ==> words@[k] == le_word(#[trigger] bytes@[2 * k], bytes@[2 * k + 1]),
        decreases count - i,
    {
        let pair = slice_subrange(bytes, 2 * i, 2 * i + 2);
        let word: u16 = read_u16_le(pair);
        words.push(word);
        i += 1;
    }
    assert(words@ =~= image_words(bytes@));
    Ok(words)
}

} // verus!
