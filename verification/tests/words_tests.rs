use pseudorand::u32_slice_bytes_len;
use pseudorand::u64_slice_bytes_len;
use pseudorand::words::extract_word32_byte;
use pseudorand::words::extract_word64_byte;
use pseudorand::words::read_le_u32;
use pseudorand::words::read_le_u64;
use pseudorand::words::u32_slice_to_le_bytes;
use pseudorand::words::u64_slice_to_le_bytes;

#[test]
fn test_slice_bytes_len() {
    let words32 = [0u32; 7];
    assert_eq!(u32_slice_bytes_len(&words32), 28);
    let words64 = [0u64; 7];
    assert_eq!(u64_slice_bytes_len(&words64), 56);
    assert_eq!(u32_slice_bytes_len(&[]), 0);
}

#[test]
fn test_u32_slice_to_le_bytes() {
    let words = [0x04030201u32, 0xaabbccdd];
    let bytes = u32_slice_to_le_bytes(&words);
    assert_eq!(bytes, vec![0x01, 0x02, 0x03, 0x04, 0xdd, 0xcc, 0xbb, 0xaa]);
}

#[test]
fn test_u64_slice_to_le_bytes() {
    let words = [0x0807060504030201u64];
    let bytes = u64_slice_to_le_bytes(&words);
    assert_eq!(bytes, vec![0x01, 0x02, 0x03, 0x04, 0x05, 0x06, 0x07, 0x08]);
}

#[test]
fn test_read_le_roundtrip() {
    let words = [0x12345678u32, 0x9abcdef0];
    let bytes = u32_slice_to_le_bytes(&words);
    assert_eq!(read_le_u32(&bytes, 0), 0x12345678);
    assert_eq!(read_le_u32(&bytes, 1), 0x9abcdef0);
    let words64 = [0x123456789abcdef0u64, 0x0f1e2d3c4b5a6978];
    let bytes64 = u64_slice_to_le_bytes(&words64);
    assert_eq!(read_le_u64(&bytes64, 0), 0x123456789abcdef0);
    assert_eq!(read_le_u64(&bytes64, 1), 0x0f1e2d3c4b5a6978);
}

#[test]
fn test_extract_word_bytes() {
    let w32 = 0x04030201u32;
    for j in 0..4 {
        assert_eq!(extract_word32_byte(w32, j), (j + 1) as u8);
    }
    let w64 = 0x0807060504030201u64;
    for j in 0..8 {
        assert_eq!(extract_word64_byte(w64, j), (j + 1) as u8);
    }
}
