//! Test messages from the RIPEMD-160 webpage[1]
//! [1] https://homes.esat.kuleuven.be/~bosselae/ripemd160.html
use ripemd128::block::{process_msg_block, DIGEST_BUF_LEN, H0, WORK_BUF_LEN};
use ripemd128::{Ripemd128, OUTPUT_SIZE};

fn nibble(c: u8) -> u8 {
    match c {
        b'0'..=b'9' => c - b'0',
        b'a'..=b'f' => c - b'a' + 10,
        _ => panic!("not a lowercase hexadecimal digit"),
    }
}

fn hex(s: &str) -> [u8; 16] {
    let s = s.as_bytes();
    assert_eq!(s.len(), 32);
    let mut out = [0u8; 16];
    for i in 0..16 {
        out[i] = nibble(s[2 * i]) * 16 + nibble(s[2 * i + 1]);
    }
    out
}

fn pattern(n: usize) -> Vec<u8> {
    (0..n).map(|i| (i * 7 + 3) as u8).collect()
}

fn hash_test(msg: &str, expected: [u8; 16]) {
    let mut hasher = Ripemd128::new();
    hasher.input(msg.as_bytes());
    let result = hasher.result();
    assert_eq!(result[..], expected);
}

fn hash_in_pieces(msg: &[u8], piece: usize) -> [u8; 16] {
    let mut hasher = Ripemd128::new();
    for c in msg.chunks(piece) {
        hasher.input(c);
    }
    hasher.result()
}

fn words_to_bytes(h: &[u32; 4]) -> [u8; 16] {
    let mut out = [0u8; 16];
    for i in 0..4 {
        out[4 * i..4 * i + 4].copy_from_slice(&h[i].to_le_bytes());
    }
    out
}

/// Pads by hand and compresses block by block, without the engine.
fn hash_by_hand(msg: &[u8]) -> ([u8; 16], usize) {
    let mut padded = msg.to_vec();
    padded.push(0x80);
    while padded.len() % 64 != 56 {
        padded.push(0);
    }
    padded.extend_from_slice(&((msg.len() as u64) << 3).to_le_bytes());
    let mut h = H0;
    for block in padded.chunks(64) {
        process_msg_block(&mut h, block);
    }
    (words_to_bytes(&h), padded.len() / 64)
}

#[test]
fn ripemd128_messages() {
    hash_test("", hex("cdf26213a150dc3ecb610f18f6b38b46"));
    hash_test("a", hex("86be7afa339d0fc7cfc785e72f578d33"));
    hash_test("abc", hex("c14a12199c66e4ba84636b0f69144c77"));
    hash_test("message digest", hex("9e327b3d6e523062afc1132d7df9d1b8"));
    hash_test(
        "abcdefghijklmnopqrstuvwxyz",
        hex("fd2aa607f71dc8f510714922b371834e"),
    );
    hash_test(
        "abcdbcdecdefdefgefghfghighijhijkijkljklmklmnlmnomnopnopq",
        hex("a1aa0689d0fafa2ddc22e88b49133a06"),
    );
    hash_test(
        "ABCDEFGHIJKLMNOPQRSTUVWXYZabcdefghijklmnopqrstuvwxyz0123456789",
        hex("d1e959eb179c911faea4624c60c5c702"),
    );
    hash_test(
        "12345678901234567890123456789012345678901234567890123456789012345678901234567890",
        hex("3f45ef194732c2dbb2c4a2c769795fa3"),
    );
}

#[test]
fn ripemd128_1million_a() {
    let v = vec!['a' as u8; 1_000_000];

    let mut hasher = Ripemd128::new();
    hasher.input(&v[..]);
    let result = hasher.result();
    assert_eq!(result[..], hex("4a7f5723f954eba1216c9d8f6320431f"));
}

#[test]
fn quick_brown_fox() {
    hash_test(
        "The quick brown fox jumps over the lazy dog",
        hex("3fa9b57f053c053fbe2735b2380db596"),
    );
}

#[test]
fn initial_chaining_value() {
    assert_eq!(DIGEST_BUF_LEN, 4);
    assert_eq!(WORK_BUF_LEN, 16);
    assert_eq!(OUTPUT_SIZE, 16);
    assert_eq!(H0, [0x6745_2301, 0xefcd_ab89, 0x98ba_dcfe, 0x1032_5476]);
}

#[test]
fn compress_zero_block() {
    let mut h = H0;
    process_msg_block(&mut h, &[0u8; 64]);
    assert_eq!(h, [0x9451_5f84, 0xe3a0_0bb7, 0xf627_fd4e, 0x5953_4c4b]);
}

#[test]
fn compress_counting_block() {
    let block: Vec<u8> = (0u8..64).collect();
    let mut h = H0;
    process_msg_block(&mut h, &block);
    assert_eq!(h, [0xbfad_ffa8, 0x23b0_6798, 0x99ef_4b9f, 0x92a7_85a6]);
    let mut h = [1, 2, 3, 4];
    process_msg_block(&mut h, &block);
    assert_eq!(h, [0x3cb9_ec7b, 0x31cd_c33b, 0x268f_78b7, 0xdf5b_dde0]);
}

#[test]
fn compress_reads_words_little_endian() {
    // Two blocks that hold the same bytes in another order within a word
    // must not compress alike.
    let mut a = [0u8; 64];
    a[0] = 1;
    let mut b = [0u8; 64];
    b[3] = 1;
    let mut ha = H0;
    process_msg_block(&mut ha, &a);
    let mut hb = H0;
    process_msg_block(&mut hb, &b);
    assert_ne!(ha, hb);
    assert_ne!(ha, H0);
}

#[test]
fn compress_empty_message_block() {
    // The one block of the padded empty message.
    let mut block = [0u8; 64];
    block[0] = 0x80;
    let mut h = H0;
    process_msg_block(&mut h, &block);
    assert_eq!(
        words_to_bytes(&h),
        hex("cdf26213a150dc3ecb610f18f6b38b46")
    );
}

#[test]
fn digest_is_little_endian_of_state() {
    // State word 0 of the empty message's digest is 0x1362f2cd.
    let mut block = [0u8; 64];
    block[0] = 0x80;
    let mut h = H0;
    process_msg_block(&mut h, &block);
    let d = Ripemd128::new().result();
    assert_eq!(h[0], 0x1362_f2cd);
    assert_eq!(d[0], 0xcd);
    assert_eq!(d[1], 0xf2);
    assert_eq!(d[2], 0x62);
    assert_eq!(d[3], 0x13);
    assert_eq!(d, words_to_bytes(&h));
}

#[test]
fn digest_length_is_sixteen() {
    assert_eq!(Ripemd128::new().result().len(), 16);
    assert_eq!(Ripemd128::digest(b"abc").len(), 16);
    assert_eq!(Ripemd128::digest(&pattern(1000)).len(), 16);
}

#[test]
fn one_shot_digest() {
    assert_eq!(
        Ripemd128::digest(b"abc"),
        hex("c14a12199c66e4ba84636b0f69144c77")
    );
    assert_eq!(
        Ripemd128::digest(b""),
        hex("cdf26213a150dc3ecb610f18f6b38b46")
    );
    assert_eq!(
        Ripemd128::digest(&pattern(1000)),
        hex("27fe1dc74701f08ef06dc3115ba7f7f7")
    );
}

#[test]
fn fixed_result_is_result() {
    let mut a = Ripemd128::new();
    a.input(b"message digest");
    let mut b = Ripemd128::new();
    b.input(b"message digest");
    assert_eq!(a.fixed_result(), b.result());
}

#[test]
fn boundary_lengths() {
    let expected = [
        (0, "cdf26213a150dc3ecb610f18f6b38b46"),
        (1, "49dd0ff84016dcde4e4f2f37cfc12625"),
        (55, "2d8d4b5718b1b7dd68fe7ddf5aa93755"),
        (56, "e5c5b014d9b5c5e6326328aa2f0cd7ab"),
        (57, "e303ad70c53abb90f09b4b68b0f79515"),
        (63, "d3c98d935128517d881fd8820ad1bf26"),
        (64, "acc7618d451267a8b5ad4aed906da393"),
        (65, "2cb60729fc20ab544e9c9c337e7580b7"),
        (119, "aa07f2d9b21b9f9d37fba9aad96db1d8"),
        (120, "1f293c8aa06498e5cdceb987f18ee886"),
        (127, "f8f019099dd2dae94b88368cd0afd7f9"),
        (128, "ea576bcf80a1ca5476aa0688d114f00a"),
        (129, "b027a6c0efd30a61bcd89a7d1c057c1f"),
    ];
    for (n, digest) in expected {
        assert_eq!(Ripemd128::digest(&pattern(n)), hex(digest), "length {}", n);
    }
}

#[test]
fn boundary_lengths_of_a() {
    let expected = [
        (55, "418486955c126b27903aa01fef5d5d15"),
        (56, "6356ebd92cd62ee084789c6ec8eb3de3"),
        (57, "d6a7de242c383193285db1de0459c32c"),
        (63, "f90233a12d38ee10c156db5554feefd2"),
        (64, "680716ac638f0d601982c696d37e5e56"),
        (65, "e30ba165def257801f43c080912bd9e0"),
    ];
    for (n, digest) in expected {
        assert_eq!(Ripemd128::digest(&vec![b'a'; n]), hex(digest), "length {}", n);
    }
}

#[test]
fn padding_block_split() {
    // Up to 55 bytes the padding fits the message's last block; from 56 on
    // it takes one more.
    let blocks = [
        (0, 1),
        (1, 1),
        (55, 1),
        (56, 2),
        (57, 2),
        (63, 2),
        (64, 2),
        (65, 2),
        (119, 2),
        (120, 3),
        (128, 3),
    ];
    for (n, count) in blocks {
        let msg = pattern(n);
        let (digest, padded_blocks) = hash_by_hand(&msg);
        assert_eq!(padded_blocks, count, "length {}", n);
        assert_eq!(Ripemd128::digest(&msg), digest, "length {}", n);
    }
}

#[test]
fn length_field_counts_bits_of_whole_message() {
    // 80 bytes in two calls: the length field holds 640, not the bit count
    // of what is pending.
    let msg = b"12345678901234567890123456789012345678901234567890123456789012345678901234567890";
    let mut hasher = Ripemd128::new();
    hasher.input(&msg[..64]);
    hasher.input(&msg[64..]);
    assert_eq!(hasher.total_len(), 80);
    assert_eq!(hasher.result(), hex("3f45ef194732c2dbb2c4a2c769795fa3"));

    let mut block = [0u8; 64];
    block[..16].copy_from_slice(&msg[64..]);
    block[16] = 0x80;
    block[56] = 0x80;
    block[57] = 0x02;
    let mut h = H0;
    process_msg_block(&mut h, &msg[..64]);
    process_msg_block(&mut h, &block);
    assert_eq!(words_to_bytes(&h), hex("3f45ef194732c2dbb2c4a2c769795fa3"));
}

#[test]
fn chunk_invariance() {
    let msg = pattern(1000);
    let whole = Ripemd128::digest(&msg);
    assert_eq!(whole, hex("27fe1dc74701f08ef06dc3115ba7f7f7"));
    for piece in [1, 2, 3, 7, 31, 55, 56, 63, 64, 65, 127, 128, 129, 500, 999, 1000, 2000] {
        assert_eq!(hash_in_pieces(&msg, piece), whole, "pieces of {}", piece);
    }
}

#[test]
fn chunk_invariance_uneven_pieces() {
    let msg = pattern(300);
    let whole = Ripemd128::digest(&msg);
    let cuts = [0, 1, 1, 60, 64, 64, 130, 257, 299, 300];
    let mut hasher = Ripemd128::new();
    for w in cuts.windows(2) {
        hasher.input(&msg[w[0]..w[1]]);
    }
    assert_eq!(hasher.total_len(), 300);
    assert_eq!(hasher.result(), whole);
}

#[test]
fn chunk_invariance_every_split_in_two() {
    let msg = pattern(200);
    let whole = Ripemd128::digest(&msg);
    for cut in 0..=200 {
        let mut hasher = Ripemd128::new();
        hasher.input(&msg[..cut]);
        hasher.input(&msg[cut..]);
        assert_eq!(hasher.result(), whole, "cut at {}", cut);
    }
}

#[test]
fn one_million_a_in_pieces() {
    let v = vec![b'a'; 1_000_000];
    assert_eq!(
        hash_in_pieces(&v, 997),
        hex("4a7f5723f954eba1216c9d8f6320431f")
    );
}

#[test]
fn empty_input_changes_nothing() {
    let mut hasher = Ripemd128::new();
    hasher.input(b"");
    hasher.input(b"abc");
    hasher.input(b"");
    assert_eq!(hasher.total_len(), 3);
    assert_eq!(hasher.result(), hex("c14a12199c66e4ba84636b0f69144c77"));
}

#[test]
fn determinism() {
    let msg = pattern(777);
    let first = Ripemd128::digest(&msg);
    let second = Ripemd128::digest(&msg);
    assert_eq!(first, second);
    assert_eq!(hash_in_pieces(&msg, 10), hash_in_pieces(&msg, 100));
}

#[test]
fn order_of_input_matters() {
    let mut a = Ripemd128::new();
    a.input(b"ab");
    a.input(b"c");
    let mut b = Ripemd128::new();
    b.input(b"c");
    b.input(b"ab");
    assert_eq!(a.result(), hex("c14a12199c66e4ba84636b0f69144c77"));
    assert_ne!(b.result(), hex("c14a12199c66e4ba84636b0f69144c77"));
}

#[test]
fn total_len_counts_all_bytes() {
    let mut hasher = Ripemd128::new();
    assert_eq!(hasher.total_len(), 0);
    hasher.input(&pattern(70));
    assert_eq!(hasher.total_len(), 70);
    hasher.input(&pattern(5));
    assert_eq!(hasher.total_len(), 75);
}

#[test]
fn reset_restores_new_engine() {
    let mut hasher = Ripemd128::new();
    hasher.input(&pattern(100));
    hasher.reset();
    assert_eq!(hasher.total_len(), 0);
    hasher.input(b"abc");
    assert_eq!(hasher.result(), hex("c14a12199c66e4ba84636b0f69144c77"));

    let mut hasher = Ripemd128::new();
    hasher.input(&pattern(64));
    hasher.reset();
    assert_eq!(hasher.result(), hex("cdf26213a150dc3ecb610f18f6b38b46"));
}

#[test]
fn default_is_new() {
    let mut hasher = Ripemd128::default();
    assert_eq!(hasher.total_len(), 0);
    hasher.input(b"a");
    assert_eq!(hasher.result(), hex("86be7afa339d0fc7cfc785e72f578d33"));
    assert_eq!(
        Ripemd128::default().result(),
        Ripemd128::new().result()
    );
}

#[test]
fn clone_keeps_state_and_is_independent() {
    let mut hasher = Ripemd128::new();
    hasher.input(b"message");
    let mut copy = hasher.clone();
    assert_eq!(copy.total_len(), 7);
    hasher.input(b" digest");
    assert_eq!(hasher.result(), hex("9e327b3d6e523062afc1132d7df9d1b8"));
    copy.input(b" digest");
    assert_eq!(copy.result(), hex("9e327b3d6e523062afc1132d7df9d1b8"));

    let mut hasher = Ripemd128::new();
    hasher.input(&pattern(70));
    let copy = hasher.clone();
    hasher.input(b"x");
    assert_eq!(copy.result(), Ripemd128::digest(&pattern(70)));
    assert_ne!(hasher.result(), Ripemd128::digest(&pattern(70)));
}
