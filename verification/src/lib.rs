//! An implementation of the RIPEMD-128 cryptographic hash.
//!
//! [`Ripemd128`] is a streaming engine: feed it a message in pieces of any
//! size with [`Ripemd128::input`], then take the 16-byte digest with
//! [`Ripemd128::result`]. What the digest is, as a function of the whole
//! message, is defined in [`model`]; that the engine computes it however the
//! message is cut is proved in [`laws`].
//!
//! # Usage
//!
//! ```rust
//! use ripemd128::Ripemd128;
//!
//! // create a RIPEMD-128 hasher instance
//! let mut hasher = Ripemd128::new();
//!
//! // process input message
//! hasher.input(b"abc");
//!
//! // acquire hash digest as a `[u8; 16]`
//! let result = hasher.result();
//! assert_eq!(result[..4], [0xc1, 0x4a, 0x12, 0x19]);
//! ```
//!
//! # Limits
//!
//! The engine counts the bytes of a message in a `u64`. A message of 2^64
//! bytes or more is outside what it handles, and [`Ripemd128::input`] asks its
//! caller to stay below that.
//!
//! # What is assumed
//!
//! Input is cut into blocks by the `block-buffer` crate, and words are
//! converted to and from bytes by `byteorder`. What those calls do is stated,
//! not proved, in [`buffer`] and [`bytes`]; everything else is verified
//! against those statements.
pub mod block;
pub mod buffer;
pub mod bytes;
pub mod laws;
pub mod model;

use crate::block::{DIGEST_BUF_LEN, H0};
use crate::buffer::{buffered, Buffer64};
use crate::bytes::le_write_words;
use crate::laws::{lemma_absorb_well_formed, lemma_streaming_digest};
use crate::model::{absorb, bit_length, finish, initial, ripemd128, EngineState};
use vstd::prelude::*;

verus! {

/// Number of bytes in a digest.
pub const OUTPUT_SIZE: usize = 16;

/// Structure representing the state of a RIPEMD-128 computation.
pub struct Ripemd128 {
    h: [u32; DIGEST_BUF_LEN],
    len: u64,
    buffer: Buffer64,
}

impl View for Ripemd128 {
    type V = EngineState;

    closed spec fn view(&self) -> EngineState {
        EngineState { h: self.h@, pending: buffered(self.buffer), len: self.len as nat }
    }
}

impl Ripemd128 {
    /// Creates an engine that has absorbed nothing.
    pub fn new() -> (engine: Ripemd128)
        ensures
            engine@ == initial(),
    {
        Ripemd128::default()
    }

    /// The number of bytes absorbed so far.
    pub fn total_len(&self) -> (len: u64)
        ensures
            len == self@.len,
    {
        self.len
    }

    /// Absorbs `input`. May be called any number of times, with pieces of any
    /// size, empty ones included.
    ///
    /// The engine counts the bytes it absorbs in 64 bits and does not guard
    /// the counter: the caller keeps the total within its range.
    pub fn input(&mut self, input: &[u8])
        requires
            old(self)@.len + input.len() <= u64::MAX,
        ensures
            final(self)@ == absorb(old(self)@, input@),
            final(self)@.well_formed(),
    {
        proof {
            lemma_absorb_well_formed(self@, input@);
        }
        self.len += input.len() as u64;
        self.buffer.input(&mut self.h, input);
    }

    /// Pads what was absorbed, compresses the last block or two, and returns
    /// the digest. The engine is used up.
    pub fn fixed_result(self) -> (digest: [u8; OUTPUT_SIZE])
        ensures
            digest@ == finish(self@),
            digest@.len() == 16,
    {
        let mut engine = self;
        let bits: u64 = engine.len << 3;
        assert(bits == bit_length(engine.len as nat)) by {
            let n: u64 = engine.len;
            assert(n << 3 == (8 * n) % 0x1_0000_0000_0000_0000) by (bit_vector);
        }
        engine.buffer.len64_padding(&mut engine.h, bits);
        le_write_words(&engine.h)
    }

    /// The digest of everything absorbed; the same as [`Self::fixed_result`].
    pub fn result(self) -> (digest: [u8; OUTPUT_SIZE])
        ensures
            digest@ == finish(self@),
            digest@.len() == 16,
    {
        self.fixed_result()
    }

    /// Puts the engine back into the state of a new one.
    pub fn reset(&mut self)
        ensures
            final(self)@ == initial(),
    {
        self.buffer.reset();
        self.len = 0;
        self.h = H0;
    }

    /// The RIPEMD-128 digest of `data`, computed with a fresh engine.
    pub fn digest(data: &[u8]) -> (digest: [u8; OUTPUT_SIZE])
        ensures
            digest@ == ripemd128(data@),
    {
        let mut engine = Ripemd128::new();
        engine.input(data);
        proof {
            lemma_streaming_digest(data@);
        }
        engine.fixed_result()
    }
}

impl Default for Ripemd128 {
    fn default() -> (engine: Ripemd128)
        ensures
            engine@ == initial(),
    {
        Ripemd128 { h: H0, len: 0, buffer: Buffer64::new() }
    }
}

impl Clone for Ripemd128 {
    fn clone(&self) -> (copy: Ripemd128)
        ensures
            copy@ == self@,
    {
        Ripemd128 { h: self.h, len: self.len, buffer: self.buffer.duplicate() }
    }
}

} // verus!
