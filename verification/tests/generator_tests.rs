use pseudorand::Generator;
use pseudorand::RngError;
use pseudorand::romu::Romu32x4Generator;
use pseudorand::romu::romu32x4_next;
use pseudorand::splitmix::Splitmix64Generator;
use pseudorand::splitmix::Splitmix64Stream;
use pseudorand::splitmix::splitmix64_next;
use pseudorand::xorshift::Xoroshiro1024Generator;
use pseudorand::xorshift::Xorshiftplus128v1Generator;
use pseudorand::xorshift::Xorshiftplus128v2Generator;
use pseudorand::xorshift::xoroshiro1024_next;
use pseudorand::xorshift::xorshiftplus128v1_next;
use pseudorand::xorshift::xorshiftplus128v2_next;

#[test]
fn test_splitmix64_known_outputs() {
    let mut state: u64 = 0;
    assert_eq!(splitmix64_next(&mut state), 0xe220a8397b1dcdaf);
    assert_eq!(splitmix64_next(&mut state), 0x6e789e6aa1b965f4);
    assert_eq!(splitmix64_next(&mut state), 0x06c45d188009454f);
    assert_eq!(splitmix64_next(&mut state), 0xf88bb8a8724c81ec);
}

#[test]
fn test_splitmix64_generator_matches_free_function() {
    let mut state: u64 = 777;
    let mut gen = Splitmix64Generator::from(777u64);
    for _ in 0..5 {
        let mut out = [0u64; 1];
        gen.next_gen(&mut out);
        assert_eq!(out[0], splitmix64_next(&mut state));
    }
}

#[test]
fn test_splitmix64_stream_bytes() {
    let mut stream: Splitmix64Stream = Splitmix64Stream::from(0u64);
    let bytes = stream.read_bytes(16);
    assert_eq!(
        bytes,
        vec![
            0xaf, 0xcd, 0x1d, 0x7b, 0x39, 0xa8, 0x20, 0xe2, 0xf4, 0x65, 0xb9, 0xa1, 0x6a, 0x9e,
            0x78, 0x6e
        ]
    );
}

#[test]
fn test_romu32x4_known_outputs() {
    let mut state: [u32; 4] = [1, 2, 3, 4];
    assert_eq!(romu32x4_next(&mut state), 2);
    assert_eq!(romu32x4_next(&mut state), 0x04000004);
    assert_eq!(romu32x4_next(&mut state), 0xb061de72);
    assert_eq!(romu32x4_next(&mut state), 0xeee63f90);
    assert_eq!(state, [0xec352d9a, 0xb66569a6, 0x5cb7e1fb, 0xf32f3671]);
}

#[test]
fn test_romu32x4_generator_matches_free_function() {
    let mut state: [u32; 4] = [9, 8, 7, 6];
    let mut gen = Romu32x4Generator::from([9u32, 8, 7, 6]);
    for _ in 0..5 {
        let mut out = [0u32; 1];
        gen.next_gen(&mut out);
        assert_eq!(out[0], romu32x4_next(&mut state));
    }
}

#[test]
fn test_xorshiftplus128v1_known_outputs() {
    let mut state: [u64; 2] = [1, 2];
    assert_eq!(xorshiftplus128v1_next(&mut state), 0x800045);
    assert_eq!(xorshiftplus128v1_next(&mut state), 0x2000104);
    assert_eq!(xorshiftplus128v1_next(&mut state), 0x4000020010c3);
}

#[test]
fn test_xorshiftplus128v2_known_outputs() {
    let mut state: [u64; 2] = [1, 2];
    assert_eq!(xorshiftplus128v2_next(&mut state), 0x3);
    assert_eq!(xorshiftplus128v2_next(&mut state), 0x800025);
    assert_eq!(xorshiftplus128v2_next(&mut state), 0x2040083);
}

#[test]
fn test_xorshiftplus_generators_step() {
    let mut s1: [u64; 2] = [11, 22];
    let mut g1 = Xorshiftplus128v1Generator::from([11u64, 22]);
    let mut out = [0u64; 1];
    g1.next_gen(&mut out);
    assert_eq!(out[0], xorshiftplus128v1_next(&mut s1));
    let mut s2: [u64; 2] = [11, 22];
    let mut g2 = Xorshiftplus128v2Generator::from([11u64, 22]);
    g2.next_gen(&mut out);
    assert_eq!(out[0], xorshiftplus128v2_next(&mut s2));
}

#[test]
fn test_xoroshiro1024_known_outputs() {
    let mut state: [u64; 16] = [1, 2, 3, 4, 5, 6, 7, 8, 9, 10, 11, 12, 13, 14, 15, 16];
    let mut cursor: u8 = 0;
    assert_eq!(xoroshiro1024_next(&mut state, &mut cursor), 0x1800001);
    assert_eq!(xoroshiro1024_next(&mut state, &mut cursor), 0x1800003001800000);
    assert_eq!(xoroshiro1024_next(&mut state, &mut cursor), 0x1800003182000300);
    assert_eq!(cursor, 3);
}

#[test]
fn test_xoroshiro1024_cursor_wraps() {
    let mut state: [u64; 16] = [3; 16];
    let mut cursor: u8 = 0;
    for _ in 0..16 {
        xoroshiro1024_next(&mut state, &mut cursor);
    }
    assert_eq!(cursor, 0);
}

#[test]
fn test_xoroshiro1024_from_seed_bytes() {
    let mut seed = [0u8; 128];
    for (k, b) in seed.iter_mut().enumerate() {
        *b = k as u8;
    }
    let gen = Xoroshiro1024Generator::from_seed_bytes(&seed).unwrap();
    assert_eq!(gen.cursor, 0);
    for i in 0..16 {
        let mut expected: u64 = 0;
        for j in (0..8).rev() {
            expected = (expected << 8) | seed[8 * i + j] as u64;
        }
        assert_eq!(gen.state[i], expected);
    }
    let short = [0u8; 127];
    assert!(matches!(
        Xoroshiro1024Generator::from_seed_bytes(&short),
        Err(RngError::InsufficientSeedData)
    ));
}

#[test]
fn test_xoroshiro1024_generator_matches_free_function() {
    let mut state: [u64; 16] = [7; 16];
    let mut cursor: u8 = 0;
    let mut gen = Xoroshiro1024Generator::from([7u64; 16]);
    for _ in 0..20 {
        let mut out = [0u64; 1];
        gen.next_gen(&mut out);
        assert_eq!(out[0], xoroshiro1024_next(&mut state, &mut cursor));
    }
}
