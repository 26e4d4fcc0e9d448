//! Little-endian conversions between machine words and bytes.
//!
//! Word buffers are never reinterpreted as byte buffers through aliased
//! memory views; every crossing between words and bytes goes through the
//! explicit encode/decode functions of this module.

use vstd::prelude::*;

verus! {

/// The 32-bit word encoded little-endian by four bytes.
pub open spec fn le_word32(b0: u8, b1: u8, b2: u8, b3: u8) -> u32 {
    (b0 + b1 * 0x100 + b2 * 0x1_0000 + b3 * 0x100_0000) as u32
}

/// The 64-bit word encoded little-endian by eight bytes.
pub open spec fn le_word64(b: Seq<u8>) -> u64
    recommends
        b.len() == 8,
{
    (b[0] + b[1] * 0x100 + b[2] * 0x1_0000 + b[3] * 0x100_0000 + b[4] * 0x1_0000_0000
        + b[5] * 0x100_0000_0000 + b[6] * 0x1_0000_0000_0000 + b[7] * 0x100_0000_0000_0000) as u64
}

/// Byte `j` (0 = least significant) of a 32-bit word, little-endian.
pub open spec fn word32_byte(w: u32, j: int) -> u8
    recommends
        0 <= j < 4,
{
    ((w >> (8 * j) as u32) % 0x100) as u8
}

/// Byte `j` (0 = least significant) of a 64-bit word, little-endian.
pub open spec fn word64_byte(w: u64, j: int) -> u8
    recommends
        0 <= j < 8,
{
    ((w >> (8 * j) as u64) % 0x100) as u8
}

/// Left rotation of a 32-bit word by `k` bits.
pub open spec fn rotl32_spec(x: u32, k: u32) -> u32
    recommends
        0 < k < 32,
{
    (x << k) | (x >> ((32 - k) as u32))
}

/// Left rotation of a 32-bit word by `k` bits.
pub fn rotl32(x: u32, k: u32) -> (r: u32)
    requires
        0 < k < 32,
    ensures
        r == rotl32_spec(x, k),
{
    (x << k) | (x >> (32 - k))
}

/// Left rotation of a 64-bit word by `k` bits.
pub open spec fn rotl64_spec(x: u64, k: u64) -> u64
    recommends
        0 < k < 64,
{
    (x << k) | (x >> ((64 - k) as u64))
}

/// Left rotation of a 64-bit word by `k` bits.
pub fn rotl64(x: u64, k: u64) -> (r: u64)
    requires
        0 < k < 64,
    ensures
        r == rotl64_spec(x, k),
{
    (x << k) | (x >> (64 - k))
}

/// A 64-bit word is its low and high 32-bit halves: bitwise assembly and
/// disassembly agree with arithmetic on the halves.
pub proof fn lemma_u64_from_words(lo: u32, hi: u32)
    by (bit_vector)
    ensures
        ((lo as u64) | ((hi as u64) << 32u64)) == lo + hi * 0x1_0000_0000,
{
}

/// Masking the low 32 bits of a 64-bit word is reduction modulo 2^32, and
/// shifting right by 32 is division by 2^32.
pub proof fn lemma_u64_split(x: u64)
    by (bit_vector)
    ensures
        (x & 0xffff_ffffu64) == x % 0x1_0000_0000,
        (x >> 32u64) == x / 0x1_0000_0000,
{
}

/// Decodes the four bytes at `4 * k` of `buf` as a little-endian 32-bit word.
pub fn read_le_u32(buf: &[u8], k: usize) -> (r: u32)
    requires
        4 * k + 4 <= buf@.len(),
    ensures
        r == le_word32(buf@[4 * k as int], buf@[4 * k + 1], buf@[4 * k + 2], buf@[4 * k + 3]),
{
    let n = buf.len();
    assert(4 * k + 4 <= n);
    let b0 = buf[4 * k];
    let b1 = buf[4 * k + 1];
    let b2 = buf[4 * k + 2];
    let b3 = buf[4 * k + 3];
    b0 as u32 + b1 as u32 * 0x100 + b2 as u32 * 0x1_0000 + b3 as u32 * 0x100_0000
}

/// Decodes the eight bytes at `8 * k` of `buf` as a little-endian 64-bit word.
pub fn read_le_u64(buf: &[u8], k: usize) -> (r: u64)
    requires
        8 * k + 8 <= buf@.len(),
    ensures
        r == le_word64(buf@.subrange(8 * k as int, 8 * k + 8)),
{
    let n = buf.len();
    assert(8 * k + 8 <= n);
    let b0 = buf[8 * k];
    let b1 = buf[8 * k + 1];
    let b2 = buf[8 * k + 2];
    let b3 = buf[8 * k + 3];
    let b4 = buf[8 * k + 4];
    let b5 = buf[8 * k + 5];
    let b6 = buf[8 * k + 6];
    let b7 = buf[8 * k + 7];
    let r = b0 as u64 + b1 as u64 * 0x100 + b2 as u64 * 0x1_0000 + b3 as u64 * 0x100_0000
        + b4 as u64 * 0x1_0000_0000 + b5 as u64 * 0x100_0000_0000 + b6 as u64 * 0x1_0000_0000_0000
        + b7 as u64 * 0x100_0000_0000_0000;
    proof {
        let s = buf@.subrange(8 * k as int, 8 * k + 8);
        assert(s[0] == buf@[8 * k as int] && s[1] == buf@[8 * k + 1] && s[2] == buf@[8 * k + 2]
            && s[3] == buf@[8 * k + 3] && s[4] == buf@[8 * k + 4] && s[5] == buf@[8 * k + 5]
            && s[6] == buf@[8 * k + 6] && s[7] == buf@[8 * k + 7]);
    }
    r
}

/// Extracts byte `j` (0 = least significant) of a 32-bit word.
pub fn extract_word32_byte(w: u32, j: usize) -> (r: u8)
    requires
        j < 4,
    ensures
        r == word32_byte(w, j as int),
{
    ((w >> (8 * j) as u32) % 0x100) as u8
}

/// Extracts byte `j` (0 = least significant) of a 64-bit word.
pub fn extract_word64_byte(w: u64, j: usize) -> (r: u8)
    requires
        j < 8,
    ensures
        r == word64_byte(w, j as int),
{
    ((w >> (8 * j) as u64) % 0x100) as u8
}

/// Encodes a slice of 32-bit words as the little-endian byte sequence it
/// spans, four bytes per word.
pub fn u32_slice_to_le_bytes(ubuf: &[u32]) -> (r: Vec<u8>)
    requires
        ubuf@.len() * 4 <= usize::MAX,
    ensures
        r@.len() == ubuf@.len() * 4,
        forall|i: int|
            0 <= i < r@.len() ==> r@[i] == word32_byte(ubuf@[i / 4], i % 4),
{
    let mut r: Vec<u8> = Vec::new();
    let mut k: usize = 0;
    while k < ubuf.len()
        invariant
            k <= ubuf@.len(),
            ubuf@.len() * 4 <= usize::MAX,
            r@.len() == k * 4,
            forall|i: int|
                0 <= i < r@.len() ==> r@[i] == word32_byte(ubuf@[i / 4], i % 4),
        decreases ubuf@.len() - k,
    {
        let w = ubuf[k];
        let mut j: usize = 0;
        while j < 4
            invariant
                j <= 4,
                k < ubuf@.len(),
                ubuf@.len() * 4 <= usize::MAX,
                w == ubuf@[k as int],
                r@.len() == k * 4 + j,
                forall|i: int|
                    0 <= i < r@.len() ==> r@[i] == word32_byte(ubuf@[i / 4], i % 4),
            decreases 4 - j,
        {
            let b = extract_word32_byte(w, j);
            proof {
                let i = k * 4 + j;
                assert(i / 4 == k && i % 4 == j) by (nonlinear_arith)
                    requires
                        i == k * 4 + j,
                        0 <= j < 4,
                        k >= 0,
                ;
            }
            r.push(b);
            j = j + 1;
        }
        k = k + 1;
    }
    r
}

/// Encodes a slice of 64-bit words as the little-endian byte sequence it
/// spans, eight bytes per word.
pub fn u64_slice_to_le_bytes(ubuf: &[u64]) -> (r: Vec<u8>)
    requires
        ubuf@.len() * 8 <= usize::MAX,
    ensures
        r@.len() == ubuf@.len() * 8,
        forall|i: int|
            0 <= i < r@.len() ==> r@[i] == word64_byte(ubuf@[i / 8], i % 8),
{
    let mut r: Vec<u8> = Vec::new();
    let mut k: usize = 0;
    while k < ubuf.len()
        invariant
            k <= ubuf@.len(),
            ubuf@.len() * 8 <= usize::MAX,
            r@.len() == k * 8,
            forall|i: int|
                0 <= i < r@.len() ==> r@[i] == word64_byte(ubuf@[i / 8], i % 8),
        decreases ubuf@.len() - k,
    {
        let w = ubuf[k];
        let mut j: usize = 0;
        while j < 8
            invariant
                j <= 8,
                k < ubuf@.len(),
                ubuf@.len() * 8 <= usize::MAX,
                w == ubuf@[k as int],
                r@.len() == k * 8 + j,
                forall|i: int|
                    0 <= i < r@.len() ==> r@[i] == word64_byte(ubuf@[i / 8], i % 8),
            decreases 8 - j,
        {
            let b = extract_word64_byte(w, j);
            proof {
                let i = k * 8 + j;
                assert(i / 8 == k && i % 8 == j) by (nonlinear_arith)
                    requires
                        i == k * 8 + j,
                        0 <= j < 8,
                        k >= 0,
                ;
            }
            r.push(b);
            j = j + 1;
        }
        k = k + 1;
    }
    r
}

} // verus!
