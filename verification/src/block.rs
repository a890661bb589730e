//! The RIPEMD-128 compression function and its constant tables.
use crate::bytes::{le_read_words, words_of};
use vstd::prelude::*;

verus! {

/// Number of 32-bit words in the chaining value.
pub const DIGEST_BUF_LEN: usize = 4;

/// Number of 32-bit words in one message block.
pub const WORK_BUF_LEN: usize = 16;

/// Number of steps in each of the two lines.
pub const STEPS: usize = 64;

/// The initial chaining value.
pub const H0: [u32; DIGEST_BUF_LEN] = [0x6745_2301, 0xefcd_ab89, 0x98ba_dcfe, 0x1032_5476];

/// Index of the message word that the left line consumes at each step.
pub const R_LEFT: [usize; STEPS] = [
    0, 1, 2, 3, 4, 5, 6, 7, 8, 9, 10, 11, 12, 13, 14, 15,
    7, 4, 13, 1, 10, 6, 15, 3, 12, 0, 9, 5, 2, 14, 11, 8,
    3, 10, 14, 4, 9, 15, 8, 1, 2, 7, 0, 6, 13, 11, 5, 12,
    1, 9, 11, 10, 0, 8, 12, 4, 13, 3, 7, 15, 14, 5, 6, 2,
];

/// Index of the message word that the right line consumes at each step.
pub const R_RIGHT: [usize; STEPS] = [
    5, 14, 7, 0, 9, 2, 11, 4, 13, 6, 15, 8, 1, 10, 3, 12,
    6, 11, 3, 7, 0, 13, 5, 10, 14, 15, 8, 12, 4, 9, 1, 2,
    15, 5, 1, 3, 7, 14, 6, 9, 11, 8, 12, 2, 10, 0, 4, 13,
    8, 6, 4, 1, 3, 11, 15, 0, 5, 12, 2, 13, 9, 7, 10, 14,
];

/// Left-rotation amount of the left line at each step.
pub const S_LEFT: [u32; STEPS] = [
    11, 14, 15, 12, 5, 8, 7, 9, 11, 13, 14, 15, 6, 7, 9, 8,
    7, 6, 8, 13, 11, 9, 7, 15, 7, 12, 15, 9, 11, 7, 13, 12,
    11, 13, 6, 7, 14, 9, 13, 15, 14, 8, 13, 6, 5, 12, 7, 5,
    11, 12, 14, 15, 14, 15, 9, 8, 9, 14, 5, 6, 8, 6, 5, 12,
];

/// Left-rotation amount of the right line at each step.
pub const S_RIGHT: [u32; STEPS] = [
    8, 9, 9, 11, 13, 15, 15, 5, 7, 7, 8, 11, 14, 14, 12, 6,
    9, 13, 15, 7, 12, 8, 9, 11, 7, 7, 12, 7, 6, 15, 13, 11,
    9, 7, 15, 11, 8, 6, 6, 14, 12, 13, 5, 14, 13, 13, 7, 5,
    15, 5, 8, 11, 14, 14, 6, 14, 6, 9, 12, 9, 12, 5, 15, 8,
];

/// Additive constant of the left line in each of the four rounds.
pub const K_LEFT: [u32; 4] = [0x0000_0000, 0x5a82_7999, 0x6ed9_eba1, 0x8f1b_bcdc];

/// Additive constant of the right line in each of the four rounds.
pub const K_RIGHT: [u32; 4] = [0x50a2_8be6, 0x5c4d_d124, 0x6d70_3ef3, 0x0000_0000];

/// The four working registers of one line.
#[derive(Clone, Copy)]
pub struct Regs {
    pub a: u32,
    pub b: u32,
    pub c: u32,
    pub d: u32,
}

/// `x` rotated left by `n` bit positions, for `0 < n < 32`.
pub open spec fn rotl(x: u32, n: u32) -> u32
    recommends
        0 < n < 32,
{
    (x << n) | (x >> ((32 - n) as u32))
}

/// The nonlinear function that selector `sel` names, applied bitwise.
pub open spec fn round_fn(sel: int, x: u32, y: u32, z: u32) -> u32
    recommends
        0 <= sel < 4,
{
    if sel == 0 {
        x ^ y ^ z
    } else if sel == 1 {
        (x & y) | (!x & z)
    } else if sel == 2 {
        (x | !y) ^ z
    } else {
        (x & z) | (y & !z)
    }
}

/// One step of a line: mixes message word `x` and constant `k` into register
/// `a`, rotates the sum left by `s`, and rotates the four registers.
pub open spec fn step(v: Regs, sel: int, x: u32, k: u32, s: u32) -> Regs {
    Regs {
        a: v.d,
        b: rotl(v.a.wrapping_add(round_fn(sel, v.b, v.c, v.d)).wrapping_add(x).wrapping_add(k), s),
        c: v.b,
        d: v.c,
    }
}

/// The registers that a line starts from.
pub open spec fn seed(h: Seq<u32>) -> Regs
    recommends
        h.len() == 4,
{
    Regs { a: h[0], b: h[1], c: h[2], d: h[3] }
}

/// The left line's registers after its first `n` steps on message words `w`.
pub open spec fn left_line(h: Seq<u32>, w: Seq<u32>, n: nat) -> Regs
    recommends
        h.len() == 4,
        w.len() == 16,
        n <= 64,
    decreases n,
{
    if n == 0 {
        seed(h)
    } else {
        let j: int = n - 1;
        step(left_line(h, w, j as nat), j / 16, w[R_LEFT[j] as int], K_LEFT[j / 16], S_LEFT[j])
    }
}

/// The right line's registers after its first `n` steps on message words `w`.
/// It goes through the round functions in the opposite order.
pub open spec fn right_line(h: Seq<u32>, w: Seq<u32>, n: nat) -> Regs
    recommends
        h.len() == 4,
        w.len() == 16,
        n <= 64,
    decreases n,
{
    if n == 0 {
        seed(h)
    } else {
        let j: int = n - 1;
        step(
            right_line(h, w, j as nat),
            3 - j / 16,
            w[R_RIGHT[j] as int],
            K_RIGHT[j / 16],
            S_RIGHT[j],
        )
    }
}

/// The chaining value that follows `h` once the two finished lines `l` and `r`
/// are folded back into it.
pub open spec fn combine(h: Seq<u32>, l: Regs, r: Regs) -> Seq<u32>
    recommends
        h.len() == 4,
{
    seq![
        h[1].wrapping_add(l.c).wrapping_add(r.d),
        h[2].wrapping_add(l.d).wrapping_add(r.a),
        h[3].wrapping_add(l.a).wrapping_add(r.b),
        h[0].wrapping_add(l.b).wrapping_add(r.c),
    ]
}

/// The compression function: the chaining value that follows `h` after the
/// 64-byte `block`.
pub open spec fn compress(h: Seq<u32>, block: Seq<u8>) -> Seq<u32>
    recommends
        h.len() == 4,
        block.len() == 64,
{
    let w = words_of(block);
    combine(h, left_line(h, w, 64), right_line(h, w, 64))
}

/// Every table entry is in the range that a step needs: word indices below
/// sixteen, rotation amounts strictly between zero and the word width.
pub proof fn lemma_tables_in_range(j: int)
    requires
        0 <= j < 64,
    ensures
        R_LEFT[j] < 16,
        R_RIGHT[j] < 16,
        0 < S_LEFT[j] < 32,
        0 < S_RIGHT[j] < 32,
{
}

/// Rotates `x` left by `n` bit positions.
fn rol(x: u32, n: u32) -> (r: u32)
    requires
        0 < n < 32,
    ensures
        r == rotl(x, n),
{
    (x << n) | (x >> (32 - n))
}

/// Applies the round function that `sel` names.
fn apply_round_fn(sel: usize, x: u32, y: u32, z: u32) -> (r: u32)
    requires
        sel < 4,
    ensures
        r == round_fn(sel as int, x, y, z),
{
    if sel == 0 {
        x ^ y ^ z
    } else if sel == 1 {
        (x & y) | (!x & z)
    } else if sel == 2 {
        (x | !y) ^ z
    } else {
        (x & z) | (y & !z)
    }
}

/// Takes one line one step further.
fn advance(v: Regs, sel: usize, x: u32, k: u32, s: u32) -> (r: Regs)
    requires
        sel < 4,
        0 < s < 32,
    ensures
        r == step(v, sel as int, x, k, s),
{
    let t: u32 = v.a.wrapping_add(apply_round_fn(sel, v.b, v.c, v.d)).wrapping_add(x).wrapping_add(k);
    Regs { a: v.d, b: rol(t, s), c: v.b, d: v.c }
}

/// Mixes one 64-byte block into the chaining value `h`.
pub fn process_msg_block(h: &mut [u32; DIGEST_BUF_LEN], block: &[u8])
    requires
        block@.len() == 64,
    ensures
        final(h)@ == compress(old(h)@, block@),
{
    let w: [u32; WORK_BUF_LEN] = le_read_words(block);
    let mut left = Regs { a: h[0], b: h[1], c: h[2], d: h[3] };
    let mut right = left;
    let mut j: usize = 0;
    while j < STEPS
        invariant
            j <= 64,
            h@ == old(h)@,
            left == left_line(h@, w@, j as nat),
            right == right_line(h@, w@, j as nat),
        decreases 64 - j,
    {
        proof {
            lemma_tables_in_range(j as int);
        }
        let round: usize = j / 16;
        left = advance(left, round, w[R_LEFT[j]], K_LEFT[round], S_LEFT[j]);
        right = advance(right, 3 - round, w[R_RIGHT[j]], K_RIGHT[round], S_RIGHT[j]);
        j += 1;
    }
    let t: u32 = h[1].wrapping_add(left.c).wrapping_add(right.d);
    h[1] = h[2].wrapping_add(left.d).wrapping_add(right.a);
    h[2] = h[3].wrapping_add(left.a).wrapping_add(right.b);
    h[3] = h[0].wrapping_add(left.b).wrapping_add(right.c);
    h[0] = t;
}

} // verus!
