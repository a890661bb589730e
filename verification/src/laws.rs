//! What holds of the engine's abstract behaviour for every message.
use crate::block::{compress, H0};
use crate::model::{
    absorb, absorb_chunks, bit_length, compress_blocks, concat, finish, initial, pad, padding,
    ripemd128, unprocessed, zero_fill, EngineState,
};
use vstd::prelude::*;

verus! {

/// What is left after the whole blocks is shorter than a block, and is the
/// end of the data.
pub proof fn lemma_unprocessed_len(data: Seq<u8>)
    ensures
        unprocessed(data).len() == data.len() % 64,
        unprocessed(data).len() < 64,
{
}

/// Data shorter than a block has no whole block to take away.
pub proof fn lemma_unprocessed_short(data: Seq<u8>)
    requires
        data.len() < 64,
    ensures
        unprocessed(data) == data,
{
}

/// Bytes that follow `x` are left over exactly as if they followed what is
/// left over of `x`.
pub proof fn lemma_unprocessed_append(x: Seq<u8>, y: Seq<u8>)
    ensures
        unprocessed(x + y) == unprocessed(unprocessed(x) + y),
{
    let r = unprocessed(x);
    let qx: int = x.len() as int / 64;
    let qr: int = (r.len() + y.len()) as int / 64;
    assert((x + y).len() as int / 64 == qx + qr);
    assert(unprocessed(x + y) =~= unprocessed(r + y));
}

/// Compressing the blocks of `x` followed by `y` is compressing the blocks of
/// `x`, and then those of what `x` left over followed by `y`.
pub proof fn lemma_compress_blocks_append(h: Seq<u32>, x: Seq<u8>, y: Seq<u8>)
    ensures
        compress_blocks(h, x + y) == compress_blocks(compress_blocks(h, x), unprocessed(x) + y),
    decreases x.len(),
{
    if x.len() < 64 {
        assert(unprocessed(x) =~= x);
    } else {
        let first = x.subrange(0, 64);
        assert((x + y).subrange(0, 64) =~= first);
        assert((x + y).skip(64) =~= x.skip(64) + y);
        assert(unprocessed(x.skip(64)) =~= unprocessed(x));
        lemma_compress_blocks_append(compress(h, first), x.skip(64), y);
    }
}

/// Absorbing `a` and then `b` leaves the engine in the state that absorbing
/// `a` followed by `b` in one piece does.
pub proof fn lemma_absorb_append(s: EngineState, a: Seq<u8>, b: Seq<u8>)
    ensures
        absorb(absorb(s, a), b) == absorb(s, a + b),
{
    let x = s.pending + a;
    assert(s.pending + (a + b) =~= x + b);
    lemma_compress_blocks_append(s.h, x, b);
    lemma_unprocessed_append(x, b);
}

/// Absorbing nothing changes nothing.
pub proof fn lemma_absorb_nothing(s: EngineState)
    requires
        s.pending.len() < 64,
    ensures
        absorb(s, Seq::empty()) == s,
{
    assert(s.pending + Seq::<u8>::empty() =~= s.pending);
    lemma_unprocessed_short(s.pending);
}

/// Chunk invariance of the state: however a message is cut into chunks,
/// absorbing the chunks in order leaves the engine in the state that absorbing
/// the whole message in one piece does.
pub proof fn lemma_absorb_chunks(s: EngineState, chunks: Seq<Seq<u8>>)
    requires
        s.pending.len() < 64,
    ensures
        absorb_chunks(s, chunks) == absorb(s, concat(chunks)),
    decreases chunks.len(),
{
    if chunks.len() == 0 {
        lemma_absorb_nothing(s);
    } else {
        lemma_absorb_chunks(s, chunks.drop_last());
        lemma_absorb_append(s, concat(chunks.drop_last()), chunks.last());
    }
}

/// An engine that absorbed `msg` in one piece produces the digest of `msg`.
pub proof fn lemma_streaming_digest(msg: Seq<u8>)
    ensures
        finish(absorb(initial(), msg)) == ripemd128(msg),
{
    let s = absorb(initial(), msg);
    assert(Seq::<u8>::empty() + msg =~= msg);
    lemma_unprocessed_len(msg);
    assert(zero_fill(s.pending.len()) == zero_fill(msg.len()));
    lemma_compress_blocks_append(H0@, msg, padding(msg.len(), bit_length(msg.len())));
}

/// Chunk invariance of the digest: however a message is cut into chunks, a
/// fresh engine that absorbs the chunks in order produces the digest of the
/// whole message, which is what it produces when it absorbs the message in
/// one piece.
pub proof fn lemma_chunk_invariance(chunks: Seq<Seq<u8>>)
    ensures
        finish(absorb_chunks(initial(), chunks)) == finish(absorb(initial(), concat(chunks))),
        finish(absorb_chunks(initial(), chunks)) == ripemd128(concat(chunks)),
{
    lemma_absorb_chunks(initial(), chunks);
    lemma_streaming_digest(concat(chunks));
}

/// Determinism: two fresh engines that absorb the same message, each cut into
/// chunks in its own way, produce the same digest.
pub proof fn lemma_digest_deterministic(first: Seq<Seq<u8>>, second: Seq<Seq<u8>>)
    requires
        concat(first) == concat(second),
    ensures
        finish(absorb_chunks(initial(), first)) == finish(absorb_chunks(initial(), second)),
{
    lemma_chunk_invariance(first);
    lemma_chunk_invariance(second);
}

/// Compressing blocks keeps the chaining value at four words.
pub proof fn lemma_compress_blocks_len(h: Seq<u32>, data: Seq<u8>)
    requires
        h.len() == 4,
    ensures
        compress_blocks(h, data).len() == 4,
    decreases data.len(),
{
    if data.len() >= 64 {
        lemma_compress_blocks_len(compress(h, data.subrange(0, 64)), data.skip(64));
    }
}

/// Absorbing keeps the state well formed: four words of chaining value, and
/// fewer than 64 bytes pending.
pub proof fn lemma_absorb_well_formed(s: EngineState, data: Seq<u8>)
    requires
        s.h.len() == 4,
    ensures
        absorb(s, data).well_formed(),
{
    lemma_compress_blocks_len(s.h, s.pending + data);
    lemma_unprocessed_len(s.pending + data);
}

/// Digest length: an engine produces 16 bytes, whatever it absorbed.
pub proof fn lemma_finish_len(s: EngineState)
    requires
        s.h.len() == 4,
    ensures
        finish(s).len() == 16,
{
    lemma_compress_blocks_len(s.h, s.pending + padding(s.pending.len(), bit_length(s.len)));
}

/// Digest length: the digest of every message, the empty one included, is 16
/// bytes long.
pub proof fn lemma_digest_len(msg: Seq<u8>)
    ensures
        ripemd128(msg).len() == 16,
{
    lemma_compress_blocks_len(H0@, pad(msg));
}

/// The padding is the marker byte, up to 63 zero bytes and the eight bytes of
/// the length field.
pub proof fn lemma_padding_len(len: nat, bit_len: u64)
    ensures
        padding(len, bit_len).len() == 9 + zero_fill(len),
        (len + padding(len, bit_len).len()) % 64 == 0,
{
}

/// Where the padding goes: a padded message is made of whole blocks. When
/// fewer than 56 bytes follow the message's last whole block, the padding
/// completes that block; otherwise it fills that block and one more.
pub proof fn lemma_pad_len(msg: Seq<u8>)
    ensures
        msg.len() % 64 < 56 ==> pad(msg).len() == 64 * (msg.len() / 64) + 64,
        msg.len() % 64 >= 56 ==> pad(msg).len() == 64 * (msg.len() / 64) + 128,
        unprocessed(pad(msg)) == Seq::<u8>::empty(),
{
    lemma_padding_len(msg.len(), bit_length(msg.len()));
    lemma_unprocessed_len(pad(msg));
}

/// The same for an engine at the moment it finishes: with fewer than 56 bytes
/// pending it compresses one more block, with 56 to 63 pending it compresses
/// two.
pub proof fn lemma_final_blocks(s: EngineState)
    requires
        s.pending.len() < 64,
    ensures
        s.pending.len() < 56 ==> (s.pending + padding(s.pending.len(), bit_length(s.len))).len()
            == 64,
        s.pending.len() >= 56 ==> (s.pending + padding(s.pending.len(), bit_length(s.len))).len()
            == 128,
{
    lemma_padding_len(s.pending.len(), bit_length(s.len));
}

} // verus!
