//! The 64-byte block buffer of the `block-buffer` crate, as the engine uses it.
//!
//! Nothing in this file is proved. Each function makes one call into
//! `block_buffer::BlockBuffer`, and its contract is an assumption about that
//! call, taken from the source of `block-buffer` 0.7.
use crate::block::process_msg_block;
use crate::model::{compress_blocks, padding, unprocessed};
use block_buffer::byteorder::LE;
use block_buffer::generic_array::typenum::U64;
use block_buffer::BlockBuffer;
use vstd::prelude::*;

verus! {

/// A `block_buffer::BlockBuffer` with a block size of 64 bytes. The verifier
/// does not look inside; what it holds is named by [`buffered`].
#[verifier::external_body]
pub struct Buffer64 {
    inner: BlockBuffer<U64>,
}

/// The bytes that wait in the buffer for the rest of their block: the part of
/// the `BlockBuffer`'s storage before its cursor (`position()`).
pub uninterp spec fn buffered(buffer: Buffer64) -> Seq<u8>;

impl Buffer64 {
    /// Calls `BlockBuffer::default`. Assumed: the new buffer has its cursor at
    /// zero, so nothing is buffered.
    #[verifier::external_body]
    pub(crate) fn new() -> (buffer: Buffer64)
        ensures
            buffered(buffer) == Seq::<u8>::empty(),
    {
        Buffer64 { inner: BlockBuffer::default() }
    }

    /// Calls `BlockBuffer::input` with a callback that applies
    /// [`process_msg_block`] to `h`.
    ///
    /// Assumed: the buffer calls the callback once for every whole 64-byte
    /// block of its buffered bytes followed by `data`, in order, and then holds
    /// the bytes after the last whole block. Each call of the callback replaces
    /// `h` by its compression with that block, so `h` ends as
    /// [`compress_blocks`] says.
    #[verifier::external_body]
    pub(crate) fn input(&mut self, h: &mut [u32; 4], data: &[u8])
        ensures
            final(h)@ == compress_blocks(old(h)@, buffered(*old(self)) + data@),
            buffered(*final(self)) == unprocessed(buffered(*old(self)) + data@),
    {
        self.inner.input(data, |b| process_msg_block(h, b));
    }

    /// Calls `BlockBuffer::len64_padding` with little-endian byte order and a
    /// callback that applies [`process_msg_block`] to `h`.
    ///
    /// Assumed: the buffer puts the byte `0x80` after its buffered bytes and
    /// zeros after that; if fewer than eight bytes are then free it hands the
    /// block to the callback and goes on with a block of zeros; it writes
    /// `bit_len` into the last eight bytes, least significant byte first, hands
    /// that block to the callback, and moves its cursor back to zero. The
    /// blocks handed over are those of the buffered bytes followed by
    /// [`padding`].
    #[verifier::external_body]
    pub(crate) fn len64_padding(&mut self, h: &mut [u32; 4], bit_len: u64)
        ensures
            final(h)@ == compress_blocks(
                old(h)@,
                buffered(*old(self)) + padding(buffered(*old(self)).len(), bit_len),
            ),
            buffered(*final(self)) == Seq::<u8>::empty(),
    {
        self.inner.len64_padding::<LE, _>(bit_len, |b| process_msg_block(h, b));
    }

    /// Calls `BlockBuffer::reset`. Assumed: it moves the cursor back to zero,
    /// so nothing is buffered.
    #[verifier::external_body]
    pub(crate) fn reset(&mut self)
        ensures
            buffered(*final(self)) == Seq::<u8>::empty(),
    {
        self.inner.reset();
    }

    /// Calls the derived `BlockBuffer::clone`. Assumed: the copy has the same
    /// storage and cursor, so the same bytes are buffered.
    #[verifier::external_body]
    pub(crate) fn duplicate(&self) -> (copy: Buffer64)
        ensures
            buffered(copy) == buffered(*self),
    {
        Buffer64 { inner: self.inner.clone() }
    }
}

} // verus!
