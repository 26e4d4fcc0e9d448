use pseudorand::Generator;
use pseudorand::RngError;
use pseudorand::chacha20::ChaCha20Generator;
use pseudorand::chacha20::ChaCha20Stream;
use pseudorand::chacha20::chacha20_constant;
use pseudorand::chacha20::chacha20_quarter_round;

#[test]
fn test_chacha20_ietf_test_vector_2_1_1() {
    let mut a: u32 = 0x11111111;
    let mut b: u32 = 0x01020304;
    let mut c: u32 = 0x9b8d6f43;
    let mut d: u32 = 0x01234567;
    chacha20_quarter_round(&mut a, &mut b, &mut c, &mut d);
    assert_eq!(a, 0xea2a92f4);
    assert_eq!(b, 0xcb1cf8ce);
    assert_eq!(c, 0x4581472e);
    assert_eq!(d, 0x5881c4bb);
}

#[test]
fn test_chacha20_ietf_test_vector_2_3_1() {
    let constant_buf: [u8; 16] = [
        0x65, 0x78, 0x70, 0x61, 0x6e, 0x64, 0x20, 0x33, 0x32, 0x2d, 0x62, 0x79, 0x74, 0x65, 0x20,
        0x6b,
    ];
    let mut key_buf: [u8; 32] = [0; 32];
    for k in 0..32 {
        key_buf[k as usize] = k;
    }
    let ctr: u64 = 0x900_0000_0000_0001;
    let nonce: u64 = 0x4a00_0000;
    let mut gen = ChaCha20Generator::from_parts(&constant_buf, &key_buf, nonce, ctr);
    let mut out = [0; 16];
    gen.next_gen(&mut out);
    assert_eq!(out[0], 0xe4e7f110);
    assert_eq!(out[1], 0x15593bd1);
    assert_eq!(out[2], 0x1fdd0f50);
    assert_eq!(out[3], 0xc47120a3);
    assert_eq!(out[4], 0xc7f4d1c7);
    assert_eq!(out[5], 0x0368c033);
    assert_eq!(out[6], 0x9aaa2204);
    assert_eq!(out[7], 0x4e6cd4c3);
    assert_eq!(out[8], 0x466482d2);
    assert_eq!(out[9], 0x09aa9f07);
    assert_eq!(out[10], 0x05d7c214);
    assert_eq!(out[11], 0xa2028bd9);
    assert_eq!(out[12], 0xd19c12b5);
    assert_eq!(out[13], 0xb94e16de);
    assert_eq!(out[14], 0xe883d0cb);
    assert_eq!(out[15], 0x4e3c50a2);
}

fn test_generator() -> ChaCha20Generator {
    let constant = chacha20_constant();
    let mut key_buf: [u8; 32] = [0; 32];
    for k in 0..32 {
        key_buf[k as usize] = k;
    }
    ChaCha20Generator::from_parts(&constant, &key_buf, 0x4a00_0000, 0)
}

#[test]
fn test_new_default_matches_from_parts() {
    let mut key_buf: [u8; 32] = [0; 32];
    for k in 0..32 {
        key_buf[k as usize] = k;
    }
    let by_default = ChaCha20Generator::new_default(&key_buf, 0x4a00_0000, 0).unwrap();
    let by_parts = test_generator();
    assert_eq!(by_default.state, by_parts.state);
}

#[test]
fn test_new_default_insufficient_seed() {
    let short = [0u8; 31];
    let r = ChaCha20Generator::new_default(&short, 0, 0);
    assert!(matches!(r, Err(RngError::InsufficientSeedData)));
}

#[test]
fn test_seek_invalid_offset() {
    let mut gen = test_generator();
    let before = gen.state;
    let r = gen.seek_to(100);
    assert!(matches!(r, Err(RngError::InvalidSeek)));
    assert_eq!(gen.state, before);
}

#[test]
fn test_seek_and_position() {
    let mut gen = test_generator();
    assert_eq!(gen.stream_position(), 0);
    assert_eq!(gen.seek_to(128).unwrap(), 128);
    assert_eq!(gen.stream_position(), 128);
    let mut out = [0u32; 16];
    gen.next_gen(&mut out);
    assert_eq!(gen.stream_position(), 192);
}

#[test]
fn test_seek_matches_sequential_blocks() {
    // the block produced after seeking to byte offset 128 equals the third
    // block (the one covering bytes 128..192) of the sequence from offset 0
    let mut sequential = test_generator();
    let mut blocks = [[0u32; 16]; 3];
    for b in blocks.iter_mut() {
        sequential.next_gen(b);
    }
    let mut seeked = test_generator();
    seeked.seek_to(128).unwrap();
    let mut out = [0u32; 16];
    seeked.next_gen(&mut out);
    assert_eq!(out, blocks[2]);
}

#[test]
fn test_stream_first_bytes() {
    let mut stream: ChaCha20Stream = ChaCha20Stream::new(test_generator());
    let bytes = stream.read_bytes(8);
    assert_eq!(bytes, vec![0xaf, 0x05, 0x1e, 0x40, 0xbb, 0xa0, 0x35, 0x49]);
}

#[test]
fn test_stream_concat_reads_match_contiguous() {
    // non-block-aligned reads concatenate to one contiguous read: no gaps
    // or duplicated bytes across block refills
    let mut piecewise: ChaCha20Stream = ChaCha20Stream::new(test_generator());
    let mut contiguous: ChaCha20Stream = ChaCha20Stream::new(test_generator());
    let mut glued = Vec::new();
    for n in [7usize, 13, 44, 1, 62, 3] {
        glued.extend(piecewise.read_bytes(n));
    }
    let whole = contiguous.read_bytes(7 + 13 + 44 + 1 + 62 + 3);
    assert_eq!(glued, whole);
}

#[test]
fn test_stream_single_bytes_match_read() {
    let mut one_by_one: ChaCha20Stream = ChaCha20Stream::new(test_generator());
    let mut at_once: ChaCha20Stream = ChaCha20Stream::new(test_generator());
    let whole = at_once.read_bytes(100);
    for k in 0..100 {
        assert_eq!(one_by_one.next_byte(), whole[k]);
    }
}
