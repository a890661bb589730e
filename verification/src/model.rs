//! The mathematical definition of RIPEMD-128 on whole messages, and the
//! abstract state of an engine that absorbs a message piece by piece.
use crate::block::{compress, H0};
use crate::bytes::{bytes_of, le_bytes_u64};
use vstd::prelude::*;

verus! {

/// The chaining value after compressing, in order, every whole 64-byte block
/// of `data`, starting from `h`. A trailing partial block is left alone.
pub open spec fn compress_blocks(h: Seq<u32>, data: Seq<u8>) -> Seq<u32>
    decreases data.len(),
{
    if data.len() < 64 {
        h
    } else {
        compress_blocks(compress(h, data.subrange(0, 64)), data.skip(64))
    }
}

/// What is left of `data` once its whole 64-byte blocks are taken away.
pub open spec fn unprocessed(data: Seq<u8>) -> Seq<u8> {
    data.skip(64 * (data.len() as int / 64))
}

/// `n` zero bytes.
pub open spec fn zeros(n: nat) -> Seq<u8> {
    Seq::new(n, |i: int| 0u8)
}

/// The number of zero bytes between the marker byte and the length field when
/// `len` bytes precede the marker: the least count that brings the length of
/// everything before the length field to 56 modulo 64.
pub open spec fn zero_fill(len: nat) -> nat {
    ((55 - len) % 64) as nat
}

/// The bytes appended after `len` bytes of data: the marker byte `0x80`, the
/// zero fill, and `bit_len` as eight little-endian bytes.
pub open spec fn padding(len: nat, bit_len: u64) -> Seq<u8> {
    seq![0x80u8] + zeros(zero_fill(len)) + le_bytes_u64(bit_len)
}

/// The length field for a message of `len` bytes: its length in bits, reduced
/// modulo 2^64.
pub open spec fn bit_length(len: nat) -> u64 {
    ((8 * len) % 0x1_0000_0000_0000_0000) as u64
}

/// The message followed by its padding.
pub open spec fn pad(msg: Seq<u8>) -> Seq<u8> {
    msg + padding(msg.len(), bit_length(msg.len()))
}

/// The RIPEMD-128 digest of `msg`.
pub open spec fn ripemd128(msg: Seq<u8>) -> Seq<u8> {
    bytes_of(compress_blocks(H0@, pad(msg)))
}

/// What an engine is, as far as its future behaviour goes.
pub struct EngineState {
    /// The chaining value after every whole block absorbed so far.
    pub h: Seq<u32>,
    /// The bytes absorbed since the last whole block.
    pub pending: Seq<u8>,
    /// The number of bytes absorbed in all.
    pub len: nat,
}

impl EngineState {
    /// Whether the state is one that an engine can be in: a chaining value of
    /// four words, and less than a block of pending bytes.
    pub open spec fn well_formed(self) -> bool {
        self.h.len() == 4 && self.pending.len() < 64
    }
}

/// The state of an engine that has absorbed nothing.
pub open spec fn initial() -> EngineState {
    EngineState { h: H0@, pending: Seq::empty(), len: 0 }
}

/// The state that follows `s` when `data` is absorbed.
pub open spec fn absorb(s: EngineState, data: Seq<u8>) -> EngineState {
    EngineState {
        h: compress_blocks(s.h, s.pending + data),
        pending: unprocessed(s.pending + data),
        len: s.len + data.len(),
    }
}

/// The state that follows `s` when the chunks are absorbed one after another.
pub open spec fn absorb_chunks(s: EngineState, chunks: Seq<Seq<u8>>) -> EngineState
    decreases chunks.len(),
{
    if chunks.len() == 0 {
        s
    } else {
        absorb(absorb_chunks(s, chunks.drop_last()), chunks.last())
    }
}

/// The chunks joined, in order, into one message.
pub open spec fn concat(chunks: Seq<Seq<u8>>) -> Seq<u8>
    decreases chunks.len(),
{
    if chunks.len() == 0 {
        Seq::empty()
    } else {
        concat(chunks.drop_last()) + chunks.last()
    }
}

/// The digest that an engine in state `s` produces: the pending bytes are
/// padded, the resulting block or two are compressed, and the chaining value
/// is written out.
pub open spec fn finish(s: EngineState) -> Seq<u8> {
    bytes_of(compress_blocks(s.h, s.pending + padding(s.pending.len(), bit_length(s.len))))
}

} // verus!
