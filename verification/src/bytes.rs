//! Little-endian conversion between bytes and machine words.
//!
//! The specification functions say what the encodings are; the executable
//! conversions are done by the `byteorder` crate that `block-buffer` re-exports.
use block_buffer::byteorder::{ByteOrder, LE};
use vstd::prelude::*;

verus! {

/// The 32-bit word whose little-endian encoding is the first four bytes of `b`.
pub open spec fn le_u32(b: Seq<u8>) -> u32
    recommends
        b.len() >= 4,
{
    (b[0] + 0x100 * b[1] + 0x1_0000 * b[2] + 0x100_0000 * b[3]) as u32
}

/// The four bytes that encode `x`, least significant first.
pub open spec fn le_bytes_u32(x: u32) -> Seq<u8> {
    seq![
        (x % 0x100) as u8,
        (x / 0x100 % 0x100) as u8,
        (x / 0x1_0000 % 0x100) as u8,
        (x / 0x100_0000 % 0x100) as u8,
    ]
}

/// The eight bytes that encode `x`, least significant first.
pub open spec fn le_bytes_u64(x: u64) -> Seq<u8> {
    le_bytes_u32((x % 0x1_0000_0000) as u32) + le_bytes_u32((x / 0x1_0000_0000) as u32)
}

/// The words encoded by `bytes`, four bytes to a word; bytes past the last
/// multiple of four are not part of any word.
pub open spec fn words_of(bytes: Seq<u8>) -> Seq<u32> {
    Seq::new(bytes.len() / 4, |i: int| le_u32(bytes.subrange(4 * i, 4 * i + 4)))
}

/// The bytes that encode `words`, word by word.
pub open spec fn bytes_of(words: Seq<u32>) -> Seq<u8> {
    Seq::new(4 * words.len(), |i: int| le_bytes_u32(words[i / 4])[i % 4])
}

/// A word is the sum of its four bytes, each weighted by its place.
pub proof fn lemma_le_u32_of_bytes(x: u32)
    ensures
        le_bytes_u32(x).len() == 4,
        le_u32(le_bytes_u32(x)) == x,
{
}

/// Decoding undoes encoding: the words encoded by `bytes_of(words)` are
/// `words` again.
pub proof fn lemma_words_of_bytes_of(words: Seq<u32>)
    ensures
        bytes_of(words).len() == 4 * words.len(),
        words_of(bytes_of(words)) == words,
{
    let bytes = bytes_of(words);
    assert forall|i: int| 0 <= i < words.len() implies #[trigger] words_of(bytes)[i] == words[i] by {
        lemma_le_u32_of_bytes(words[i]);
        assert(bytes.subrange(4 * i, 4 * i + 4) =~= le_bytes_u32(words[i]));
    }
    assert(words_of(bytes) =~= words);
}

/// Decodes one 64-byte block into its sixteen words.
///
/// Calls `byteorder::LittleEndian::read_u32_into`, which panics unless the
/// source is four times as long as the destination. Assumed: it stores
/// `u32::from_le_bytes` of each successive four-byte chunk of the source.
#[verifier::external_body]
pub(crate) fn le_read_words(block: &[u8]) -> (w: [u32; 16])
    requires
        block@.len() == 64,
    ensures
        w@ == words_of(block@),
{
    let mut w: [u32; 16] = [0u32; 16];
    LE::read_u32_into(block, &mut w);
    w
}

/// Encodes the four state words as sixteen bytes.
///
/// Calls `byteorder::LittleEndian::write_u32_into`, which panics unless the
/// destination is four times as long as the source. Assumed: it copies
/// `to_le_bytes` of each word into successive four-byte chunks of the
/// destination.
#[verifier::external_body]
pub(crate) fn le_write_words(h: &[u32; 4]) -> (out: [u8; 16])
    ensures
        out@ == bytes_of(h@),
{
    let mut out: [u8; 16] = [0u8; 16];
    LE::write_u32_into(h, &mut out);
    out
}

} // verus!
