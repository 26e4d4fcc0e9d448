//! The 20-round ARX keystream generator: its permutation, counter-based
//! block function, construction from key material, and block-aligned seeking.
//!
//! State layout (16 words of 32 bits, little-endian): words 0..4 hold the
//! 16-byte domain constant, words 4..12 the 32-byte key, words 12..14 the
//! 64-bit block counter (low word first), and words 14..16 the 64-bit nonce
//! (low word first).

use vstd::prelude::*;

use crate::Generator;
use crate::RngError;
use crate::words::le_word32;
use crate::words::lemma_u64_from_words;
use crate::words::lemma_u64_split;
use crate::words::read_le_u32;
use crate::words::rotl32;
use crate::words::rotl32_spec;
use vstd::arithmetic::div_mod::lemma_fundamental_div_mod;
use vstd::array::spec_array_update;
use vstd::slice::slice_subrange;
use vstd::wrapping::u32_specs;

verus! {

/// One quarter-round on four words, all additions modulo 2^32.
pub open spec fn quarter_round_spec(a: u32, b: u32, c: u32, d: u32) -> (u32, u32, u32, u32) {
    let a1 = u32_specs::wrapping_add(a, b);
    let d1 = rotl32_spec(d ^ a1, 16);
    let c1 = u32_specs::wrapping_add(c, d1);
    let b1 = rotl32_spec(b ^ c1, 12);
    let a2 = u32_specs::wrapping_add(a1, b1);
    let d2 = rotl32_spec(d1 ^ a2, 8);
    let c2 = u32_specs::wrapping_add(c1, d2);
    let b2 = rotl32_spec(b1 ^ c2, 7);
    (a2, b2, c2, d2)
}

/// The quarter-round, mutating its four words in place.
pub fn chacha20_quarter_round(a: &mut u32, b: &mut u32, c: &mut u32, d: &mut u32)
    ensures
        (*final(a), *final(b), *final(c), *final(d)) == quarter_round_spec(
            *old(a),
            *old(b),
            *old(c),
            *old(d),
        ),
{
    *a = (*a).wrapping_add(*b);
    *d = rotl32(*d ^ *a, 16);
    *c = (*c).wrapping_add(*d);
    *b = rotl32(*b ^ *c, 12);
    *a = (*a).wrapping_add(*b);
    *d = rotl32(*d ^ *a, 8);
    *c = (*c).wrapping_add(*d);
    *b = rotl32(*b ^ *c, 7);
}

/// A quarter-round applied at four positions of the 16-word state.
pub open spec fn quarter_round_at_spec(s: Seq<u32>, ia: int, ib: int, ic: int, id: int) -> Seq<
    u32,
>
    recommends
        s.len() == 16,
        0 <= ia < 16,
        0 <= ib < 16,
        0 <= ic < 16,
        0 <= id < 16,
{
    let q = quarter_round_spec(s[ia], s[ib], s[ic], s[id]);
    s.update(ia, q.0).update(ib, q.1).update(ic, q.2).update(id, q.3)
}

fn quarter_round_at(x: &mut [u32; 16], ia: usize, ib: usize, ic: usize, id: usize)
    requires
        ia < 16,
        ib < 16,
        ic < 16,
        id < 16,
    ensures
        final(x)@ == quarter_round_at_spec(old(x)@, ia as int, ib as int, ic as int, id as int),
{
    let mut a = x[ia];
    let mut b = x[ib];
    let mut c = x[ic];
    let mut d = x[id];
    chacha20_quarter_round(&mut a, &mut b, &mut c, &mut d);
    x[ia] = a;
    x[ib] = b;
    x[ic] = c;
    x[id] = d;
}

/// The four "column" quarter-rounds of a double-round.
pub open spec fn column_round_spec(s: Seq<u32>) -> Seq<u32> {
    let s1 = quarter_round_at_spec(s, 0, 4, 8, 12);
    let s2 = quarter_round_at_spec(s1, 1, 5, 9, 13);
    let s3 = quarter_round_at_spec(s2, 2, 6, 10, 14);
    quarter_round_at_spec(s3, 3, 7, 11, 15)
}

/// The four "diagonal" quarter-rounds of a double-round.
pub open spec fn diagonal_round_spec(s: Seq<u32>) -> Seq<u32> {
    let s1 = quarter_round_at_spec(s, 0, 5, 10, 15);
    let s2 = quarter_round_at_spec(s1, 1, 6, 11, 12);
    let s3 = quarter_round_at_spec(s2, 2, 7, 8, 13);
    quarter_round_at_spec(s3, 3, 4, 9, 14)
}

/// One double-round: columns, then diagonals.
pub open spec fn double_round_spec(s: Seq<u32>) -> Seq<u32> {
    diagonal_round_spec(column_round_spec(s))
}

/// `n` double-rounds applied to the state.
pub open spec fn rounds_spec(s: Seq<u32>, n: nat) -> Seq<u32>
    decreases n,
{
    if n == 0 {
        s
    } else {
        double_round_spec(rounds_spec(s, (n - 1) as nat))
    }
}

fn double_round(x: &mut [u32; 16])
    ensures
        final(x)@ == double_round_spec(old(x)@),
{
    quarter_round_at(x, 0, 4, 8, 12);
    quarter_round_at(x, 1, 5, 9, 13);
    quarter_round_at(x, 2, 6, 10, 14);
    quarter_round_at(x, 3, 7, 11, 15);
    quarter_round_at(x, 0, 5, 10, 15);
    quarter_round_at(x, 1, 6, 11, 12);
    quarter_round_at(x, 2, 7, 8, 13);
    quarter_round_at(x, 3, 4, 9, 14);
}

/// Element-wise addition modulo 2^32 of the permuted state and the original
/// state (the feed-forward that makes the block function one-way).
pub open spec fn feed_forward_spec(x: Seq<u32>, s: Seq<u32>) -> Seq<u32>
    recommends
        x.len() == 16,
        s.len() == 16,
{
    Seq::new(16, |i: int| u32_specs::wrapping_add(x[i], s[i]))
}

/// The 16-word output block produced from a state: 10 double-rounds, then
/// the feed-forward. The state itself is not changed by this function.
pub open spec fn chacha20_block_spec(s: Seq<u32>) -> Seq<u32>
    recommends
        s.len() == 16,
{
    feed_forward_spec(rounds_spec(s, 10), s)
}

/// The 64-bit block counter packed little-endian into words 12 and 13.
pub open spec fn counter_of(s: Seq<u32>) -> int
    recommends
        s.len() == 16,
{
    s[12] + 0x1_0000_0000 * s[13]
}

/// The state with its block counter replaced by `c`.
pub open spec fn with_counter(s: Seq<u32>, c: int) -> Seq<u32>
    recommends
        s.len() == 16,
        0 <= c < 0x1_0000_0000_0000_0000,
{
    s.update(12, (c % 0x1_0000_0000) as u32).update(13, (c / 0x1_0000_0000) as u32)
}

/// The state after one block production: the counter is incremented by one,
/// wrapping at 2^64; no other word changes.
pub open spec fn chacha20_next_state_spec(s: Seq<u32>) -> Seq<u32>
    recommends
        s.len() == 16,
{
    with_counter(s, (counter_of(s) + 1) % 0x1_0000_0000_0000_0000)
}

/// Produces the next 16-word output block into `out` and advances the state's
/// block counter by one (wrapping at 2^64), the block function's only state
/// mutation.
pub fn chacha20_next(state: &mut [u32; 16], out: &mut [u32; 16])
    ensures
        final(out)@ == chacha20_block_spec(old(state)@),
        final(state)@ == chacha20_next_state_spec(old(state)@),
{
    let s0: [u32; 16] = *state;
    let mut x: [u32; 16] = *state;
    let mut round: usize = 0;
    while round < 10
        invariant
            round <= 10,
            x@ == rounds_spec(s0@, round as nat),
        decreases 10 - round,
    {
        double_round(&mut x);
        round = round + 1;
    }
    let ghost w10 = x@;
    let mut k: usize = 0;
    while k < 16
        invariant
            k <= 16,
            x@.len() == 16,
            w10.len() == 16,
            forall|i: int| 0 <= i < k ==> x@[i] == u32_specs::wrapping_add(w10[i], s0@[i]),
            forall|i: int| k <= i < 16 ==> x@[i] == w10[i],
        decreases 16 - k,
    {
        x[k] = x[k].wrapping_add(s0[k]);
        k = k + 1;
    }
    proof {
        assert(x@ =~= feed_forward_spec(w10, s0@));
    }
    let lo = state[12];
    let hi = state[13];
    let ctr: u64 = (lo as u64) | ((hi as u64) << 32);
    proof {
        lemma_u64_from_words(lo, hi);
    }
    let ctr2 = ctr.wrapping_add(1);
    proof {
        lemma_u64_split(ctr2);
    }
    state[12] = (ctr2 & 0xffff_ffff) as u32;
    state[13] = (ctr2 >> 32) as u32;
    *out = x;
    proof {
        assert(final(state)@ =~= chacha20_next_state_spec(old(state)@));
    }
}

/// The cryptographic generator: 16 words of state, mutated in place once per
/// block request.
pub struct ChaCha20Generator {
    pub state: [u32; 16],
}

impl From<[u32; 16]> for ChaCha20Generator {
    fn from(state: [u32; 16]) -> (r: ChaCha20Generator) {
        ChaCha20Generator { state }
    }
}

impl vstd::std_specs::convert::FromSpecImpl<[u32; 16]> for ChaCha20Generator {
    open spec fn obeys_from_spec() -> bool {
        true
    }

    open spec fn from_spec(v: [u32; 16]) -> ChaCha20Generator {
        ChaCha20Generator { state: v }
    }
}

/// The state assembled from a 16-byte constant, a 32-byte key, and the
/// 64-bit nonce and counter, all words little-endian.
pub open spec fn from_parts_spec(cbuf: Seq<u8>, kbuf: Seq<u8>, nonce: u64, ctr: u64) -> Seq<u32>
    recommends
        cbuf.len() == 16,
        kbuf.len() == 32,
{
    Seq::new(
        16,
        |i: int|
            if i < 4 {
                le_word32(cbuf[4 * i], cbuf[4 * i + 1], cbuf[4 * i + 2], cbuf[4 * i + 3])
            } else if i < 12 {
                let j = i - 4;
                le_word32(kbuf[4 * j], kbuf[4 * j + 1], kbuf[4 * j + 2], kbuf[4 * j + 3])
            } else if i == 12 {
                (ctr % 0x1_0000_0000) as u32
            } else if i == 13 {
                (ctr / 0x1_0000_0000) as u32
            } else if i == 14 {
                (nonce % 0x1_0000_0000) as u32
            } else {
                (nonce / 0x1_0000_0000) as u32
            },
    )
}

/// The canonical 16-byte domain constant, the ASCII bytes of
/// `expand 32-byte k`.
pub open spec fn chacha20_constant_spec() -> Seq<u8> {
    seq![
        0x65u8, 0x78u8, 0x70u8, 0x61u8, 0x6eu8, 0x64u8, 0x20u8, 0x33u8, 0x32u8, 0x2du8, 0x62u8,
        0x79u8, 0x74u8, 0x65u8, 0x20u8, 0x6bu8,
    ]
}

/// The canonical 16-byte domain constant as a byte array.
pub fn chacha20_constant() -> (r: [u8; 16])
    ensures
        r@ == chacha20_constant_spec(),
{
    let r: [u8; 16] = [
        0x65u8, 0x78u8, 0x70u8, 0x61u8, 0x6eu8, 0x64u8, 0x20u8, 0x33u8, 0x32u8, 0x2du8, 0x62u8,
        0x79u8, 0x74u8, 0x65u8, 0x20u8, 0x6bu8,
    ];
    proof {
        assert(r@ =~= chacha20_constant_spec());
    }
    r
}

impl ChaCha20Generator {
    /// Parses the 16-byte constant and 32-byte key as little-endian words
    /// into their fixed state slots, alongside the counter and nonce.
    pub fn from_parts(constant_buf: &[u8], key_buf: &[u8], nonce: u64, ctr: u64) -> (r:
        ChaCha20Generator)
        requires
            constant_buf@.len() == 16,
            key_buf@.len() == 32,
        ensures
            r.state@ == from_parts_spec(constant_buf@, key_buf@, nonce, ctr),
            counter_of(r.state@) == ctr,
    {
        let mut state: [u32; 16] = [0u32; 16];
        let mut k: usize = 0;
        while k < 4
            invariant
                k <= 4,
                constant_buf@.len() == 16,
                forall|i: int|
                    0 <= i < k ==> state@[i] == le_word32(
                        constant_buf@[4 * i],
                        constant_buf@[4 * i + 1],
                        constant_buf@[4 * i + 2],
                        constant_buf@[4 * i + 3],
                    ),
            decreases 4 - k,
        {
            state[k] = read_le_u32(constant_buf, k);
            k = k + 1;
        }
        let mut k: usize = 4;
        while k < 12
            invariant
                4 <= k <= 12,
                constant_buf@.len() == 16,
                key_buf@.len() == 32,
                forall|i: int|
                    0 <= i < 4 ==> state@[i] == le_word32(
                        constant_buf@[4 * i],
                        constant_buf@[4 * i + 1],
                        constant_buf@[4 * i + 2],
                        constant_buf@[4 * i + 3],
                    ),
                forall|i: int|
                    4 <= i < k ==> state@[i] == le_word32(
                        key_buf@[4 * (i - 4)],
                        key_buf@[4 * (i - 4) + 1],
                        key_buf@[4 * (i - 4) + 2],
                        key_buf@[4 * (i - 4) + 3],
                    ),
            decreases 12 - k,
        {
            state[k] = read_le_u32(key_buf, k - 4);
            k = k + 1;
        }
        proof {
            lemma_u64_split(ctr);
            lemma_u64_split(nonce);
        }
        state[12] = (ctr & 0xffff_ffff) as u32;
        state[13] = (ctr >> 32) as u32;
        state[14] = (nonce & 0xffff_ffff) as u32;
        state[15] = (nonce >> 32) as u32;
        proof {
            assert(state@ =~= from_parts_spec(constant_buf@, key_buf@, nonce, ctr));
            lemma_fundamental_div_mod(ctr as int, 0x1_0000_0000);
        }
        ChaCha20Generator { state }
    }

    /// Builds a generator from the canonical domain constant and the first
    /// 32 bytes of `key_seed`; fails when fewer than 32 seed bytes are given.
    pub fn new_default(key_seed: &[u8], nonce: u64, ctr: u64) -> (r: Result<
        ChaCha20Generator,
        RngError,
    >)
        ensures
            key_seed@.len() >= 32 ==> r is Ok && r->Ok_0.state@ == from_parts_spec(
                chacha20_constant_spec(),
                key_seed@.subrange(0, 32),
                nonce,
                ctr,
            ),
            key_seed@.len() < 32 ==> r == Err::<ChaCha20Generator, RngError>(
                RngError::InsufficientSeedData,
            ),
    {
        if key_seed.len() < 32 {
            return Err(RngError::InsufficientSeedData);
        }
        let constant = chacha20_constant();
        let key = slice_subrange(key_seed, 0, 32);
        Ok(ChaCha20Generator::from_parts(constant.as_slice(), key, nonce, ctr))
    }

    /// The byte position of the next block, `counter * 64`.
    pub fn stream_position(&self) -> (r: u64)
        requires
            counter_of(self.state@) * 64 <= u64::MAX,
        ensures
            r == counter_of(self.state@) * 64,
    {
        let lo = self.state[12];
        let hi = self.state[13];
        let ctr: u64 = (lo as u64) | ((hi as u64) << 32);
        proof {
            lemma_u64_from_words(lo, hi);
        }
        ctr * 64
    }

    /// Seeks to the byte offset `pos`: legal only when `pos` is a multiple
    /// of 64 (the block size in bytes), in which case the counter becomes
    /// `pos / 64`; any other offset fails and leaves the state unchanged.
    pub fn seek_to(&mut self, pos: u64) -> (r: Result<u64, RngError>)
        ensures
            pos % 64 == 0 ==> r == Ok::<u64, RngError>(pos) && final(self).state@ == with_counter(
                old(self).state@,
                pos as int / 64,
            ) && counter_of(final(self).state@) == pos as int / 64,
            pos % 64 != 0 ==> r == Err::<u64, RngError>(RngError::InvalidSeek) && *final(self)
                == *old(self),
    {
        if pos % 64 != 0 {
            return Err(RngError::InvalidSeek);
        }
        let ctr = pos / 64;
        proof {
            lemma_u64_split(ctr);
        }
        self.state[12] = (ctr & 0xffff_ffff) as u32;
        self.state[13] = (ctr >> 32) as u32;
        proof {
            assert(self.state@ =~= with_counter(old(self).state@, pos as int / 64));
            lemma_counter_roundtrip(old(self).state@, pos as int / 64);
        }
        Ok(pos)
    }
}

impl Generator<[u32; 16]> for ChaCha20Generator {
    open spec fn wf(&self) -> bool {
        true
    }

    open spec fn next_block_spec(&self) -> Seq<u32> {
        chacha20_block_spec(self.state@)
    }

    open spec fn next_state_spec(&self) -> ChaCha20Generator {
        let c = (counter_of(self.state@) + 1) % 0x1_0000_0000_0000_0000;
        ChaCha20Generator {
            state: spec_array_update(
                spec_array_update(self.state, 12, (c % 0x1_0000_0000) as u32),
                13,
                (c / 0x1_0000_0000) as u32,
            ),
        }
    }

    fn next_gen(&mut self, out: &mut [u32; 16]) {
        chacha20_next(&mut self.state, out);
        proof {
            assert(self.state =~= old(self).next_state_spec().state);
        }
    }
}

/// The cryptographic generator exposed as a byte stream.
pub type ChaCha20Stream = crate::Buffer32<ChaCha20Generator, 16>;

/// The state after `n` block productions.
pub open spec fn state_after_blocks(s: Seq<u32>, n: nat) -> Seq<u32>
    decreases n,
{
    if n == 0 {
        s
    } else {
        chacha20_next_state_spec(state_after_blocks(s, (n - 1) as nat))
    }
}

/// The `n`-th output block (counting from zero) of the sequence of blocks
/// produced from state `s`.
pub open spec fn nth_block_spec(s: Seq<u32>, n: nat) -> Seq<u32> {
    chacha20_block_spec(state_after_blocks(s, n))
}

proof fn lemma_counter_roundtrip(s: Seq<u32>, c: int)
    requires
        s.len() == 16,
        0 <= c < 0x1_0000_0000_0000_0000,
    ensures
        counter_of(with_counter(s, c)) == c,
        with_counter(s, c).len() == 16,
{
    lemma_fundamental_div_mod(c, 0x1_0000_0000);
}

proof fn lemma_with_counter_twice(s: Seq<u32>, c1: int, c2: int)
    requires
        s.len() == 16,
    ensures
        with_counter(with_counter(s, c1), c2) =~= with_counter(s, c2),
{
}

proof fn lemma_state_after_counter(s: Seq<u32>, k: nat)
    requires
        s.len() == 16,
        k < 0x1_0000_0000_0000_0000,
    ensures
        state_after_blocks(with_counter(s, 0), k) == with_counter(s, k as int),
    decreases k,
{
    if k == 0 {
    } else {
        lemma_state_after_counter(s, (k - 1) as nat);
        lemma_counter_roundtrip(s, k - 1);
        lemma_with_counter_twice(s, k - 1, k as int);
        assert(state_after_blocks(with_counter(s, 0), k) == chacha20_next_state_spec(
            with_counter(s, k - 1),
        ));
    }
}

/// The counter is the sole position coordinate: the block produced after
/// seeking to byte offset `64 * k` equals the `k`-th block (counting from
/// zero) of the sequence produced from the same state seeked to offset 0.
pub proof fn lemma_seek_matches_sequential(s: Seq<u32>, k: nat)
    requires
        s.len() == 16,
        k < 0x1_0000_0000_0000_0000,
    ensures
        chacha20_block_spec(with_counter(s, k as int)) == nth_block_spec(with_counter(s, 0), k),
{
    lemma_state_after_counter(s, k);
}

} // verus!
