//! Fast non-cryptographic generators of the xor-shift family, carrying no
//! security guarantee; variants of the same block-generator contract as the
//! cryptographic generator.

use vstd::prelude::*;

use crate::Generator;
use crate::RngError;
use crate::words::le_word64;
use crate::words::read_le_u64;
use crate::words::rotl64;
use crate::words::rotl64_spec;
use vstd::array::spec_array_update;
use vstd::wrapping::u64_specs;

verus! {

/// The cursor after one step of the 16-word generator: the next slot, with
/// wrap-around.
pub open spec fn xoroshiro1024_next_cursor_spec(q: u8) -> u8
    recommends
        q < 16,
{
    (((q as int) + 1) % 16) as u8
}

/// The word returned by one step of the 16-word generator: the rotated sum
/// of the two active slots, plus the older slot, all modulo 2^64.
pub open spec fn xoroshiro1024_out_spec(s: Seq<u64>, q: u8) -> u64
    recommends
        s.len() == 16,
        q < 16,
{
    let s15 = s[q as int];
    let s0 = s[((q as int) + 1) % 16];
    u64_specs::wrapping_add(rotl64_spec(u64_specs::wrapping_add(s0, s15), 23), s15)
}

/// The state after one step of the 16-word generator: the two active slots
/// are replaced by xor-rotate mixes of themselves.
pub open spec fn xoroshiro1024_next_state_spec(s: Seq<u64>, q: u8) -> Seq<u64>
    recommends
        s.len() == 16,
        q < 16,
{
    let np = ((q as int) + 1) % 16;
    let s15 = s[q as int];
    let s0 = s[np];
    let t = s0 ^ s15;
    s.update(q as int, rotl64_spec(s0, 25) ^ t ^ rotl64_spec(t, 27)).update(np, rotl64_spec(t, 36))
}

/// One step of the 16-word generator: returns the output word and advances
/// the state and the cursor in place.
pub fn xoroshiro1024_next(state: &mut [u64; 16], cursor: &mut u8) -> (r: u64)
    requires
        *old(cursor) < 16,
    ensures
        r == xoroshiro1024_out_spec(old(state)@, *old(cursor)),
        final(state)@ == xoroshiro1024_next_state_spec(old(state)@, *old(cursor)),
        *final(cursor) == xoroshiro1024_next_cursor_spec(*old(cursor)),
        *final(cursor) < 16,
{
    let q = *cursor;
    let np = (q + 1) % 16;
    let s15 = state[q as usize];
    let s0 = state[np as usize];
    let out = rotl64(s0.wrapping_add(s15), 23).wrapping_add(s15);
    let t = s0 ^ s15;
    state[q as usize] = rotl64(s0, 25) ^ t ^ rotl64(t, 27);
    state[np as usize] = rotl64(t, 36);
    *cursor = np;
    out
}

/// The 16-word xor-shift generator with a rotating cursor.
pub struct Xoroshiro1024Generator {
    pub state: [u64; 16],
    pub cursor: u8,
}

impl From<[u64; 16]> for Xoroshiro1024Generator {
    fn from(state: [u64; 16]) -> (r: Xoroshiro1024Generator) {
        Xoroshiro1024Generator { state, cursor: 0 }
    }
}

impl vstd::std_specs::convert::FromSpecImpl<[u64; 16]> for Xoroshiro1024Generator {
    open spec fn obeys_from_spec() -> bool {
        true
    }

    open spec fn from_spec(v: [u64; 16]) -> Xoroshiro1024Generator {
        Xoroshiro1024Generator { state: v, cursor: 0 }
    }
}

impl Xoroshiro1024Generator {
    /// Builds the generator from 128 seed bytes read as 16 little-endian
    /// 64-bit words; fails when fewer than 128 seed bytes are given.
    pub fn from_seed_bytes(seed: &[u8]) -> (r: Result<Xoroshiro1024Generator, RngError>)
        ensures
            seed@.len() >= 128 ==> r is Ok && r->Ok_0.cursor == 0 && forall|i: int|
                0 <= i < 16 ==> r->Ok_0.state@[i] == le_word64(seed@.subrange(8 * i, 8 * i + 8)),
            seed@.len() < 128 ==> r == Err::<Xoroshiro1024Generator, RngError>(
                RngError::InsufficientSeedData,
            ),
    {
        if seed.len() < 128 {
            return Err(RngError::InsufficientSeedData);
        }
        let mut state: [u64; 16] = [0u64; 16];
        let mut k: usize = 0;
        while k < 16
            invariant
                k <= 16,
                seed@.len() >= 128,
                forall|i: int|
                    0 <= i < k ==> state@[i] == le_word64(seed@.subrange(8 * i, 8 * i + 8)),
            decreases 16 - k,
        {
            state[k] = read_le_u64(seed, k);
            k = k + 1;
        }
        Ok(Xoroshiro1024Generator { state, cursor: 0 })
    }
}

impl Generator<[u64; 1]> for Xoroshiro1024Generator {
    open spec fn wf(&self) -> bool {
        self.cursor < 16
    }

    open spec fn next_block_spec(&self) -> Seq<u64> {
        seq![xoroshiro1024_out_spec(self.state@, self.cursor)]
    }

    open spec fn next_state_spec(&self) -> Xoroshiro1024Generator {
        let q = self.cursor as int;
        let np = (q + 1) % 16;
        let ns = xoroshiro1024_next_state_spec(self.state@, self.cursor);
        Xoroshiro1024Generator {
            state: spec_array_update(spec_array_update(self.state, q, ns[q]), np, ns[np]),
            cursor: xoroshiro1024_next_cursor_spec(self.cursor),
        }
    }

    fn next_gen(&mut self, out: &mut [u64; 1]) {
        out[0] = xoroshiro1024_next(&mut self.state, &mut self.cursor);
        proof {
            assert(out@ =~= old(self).next_block_spec());
            assert(self.state =~= old(self).next_state_spec().state);
        }
    }
}

/// The 16-word xor-shift generator exposed as a byte stream.
pub type Xoroshiro1024Stream = crate::Buffer64<Xoroshiro1024Generator, 1>;

/// The state after one step of the first two-word variant: the newer word
/// slides down and the mix of both becomes the newer word.
pub open spec fn xorshiftplus128v1_next_state_spec(s: Seq<u64>) -> Seq<u64>
    recommends
        s.len() == 2,
{
    let a = s[0] ^ (s[0] << 23u64);
    seq![s[1], a ^ s[1] ^ (a >> 17u64) ^ (s[1] >> 26u64)]
}

/// The word returned by one step of the first two-word variant: the sum of
/// the freshly mixed word and the older word, modulo 2^64.
pub open spec fn xorshiftplus128v1_out_spec(s: Seq<u64>) -> u64
    recommends
        s.len() == 2,
{
    let a = s[0] ^ (s[0] << 23u64);
    let b = a ^ s[1] ^ (a >> 17u64) ^ (s[1] >> 26u64);
    u64_specs::wrapping_add(b, s[1])
}

/// One step of the first two-word variant: returns the output word and
/// advances the state in place.
pub fn xorshiftplus128v1_next(state: &mut [u64; 2]) -> (r: u64)
    ensures
        r == xorshiftplus128v1_out_spec(old(state)@),
        final(state)@ == xorshiftplus128v1_next_state_spec(old(state)@),
{
    let mut s1 = state[0];
    let s0 = state[1];
    s1 = s1 ^ (s1 << 23);
    s1 = s1 ^ s0 ^ (s1 >> 17) ^ (s0 >> 26);
    state[0] = s0;
    state[1] = s1;
    proof {
        assert(state@ =~= xorshiftplus128v1_next_state_spec(old(state)@));
    }
    s1.wrapping_add(s0)
}

/// The state after one step of the second two-word variant.
pub open spec fn xorshiftplus128v2_next_state_spec(s: Seq<u64>) -> Seq<u64>
    recommends
        s.len() == 2,
{
    let a = s[0] ^ (s[0] << 23u64);
    seq![s[1], a ^ s[1] ^ (a >> 18u64) ^ (s[1] >> 5u64)]
}

/// The word returned by one step of the second two-word variant: the sum of
/// the two words before mixing, modulo 2^64.
pub open spec fn xorshiftplus128v2_out_spec(s: Seq<u64>) -> u64
    recommends
        s.len() == 2,
{
    u64_specs::wrapping_add(s[0], s[1])
}

/// One step of the second two-word variant: returns the output word and
/// advances the state in place.
pub fn xorshiftplus128v2_next(state: &mut [u64; 2]) -> (r: u64)
    ensures
        r == xorshiftplus128v2_out_spec(old(state)@),
        final(state)@ == xorshiftplus128v2_next_state_spec(old(state)@),
{
    let mut s1 = state[0];
    let s0 = state[1];
    let r = s1.wrapping_add(s0);
    state[0] = s0;
    s1 = s1 ^ (s1 << 23);
    state[1] = s1 ^ s0 ^ (s1 >> 18) ^ (s0 >> 5);
    proof {
        assert(state@ =~= xorshiftplus128v2_next_state_spec(old(state)@));
    }
    r
}

/// The first two-word xor-shift generator.
pub struct Xorshiftplus128v1Generator {
    pub state: [u64; 2],
}

impl From<[u64; 2]> for Xorshiftplus128v1Generator {
    fn from(state: [u64; 2]) -> (r: Xorshiftplus128v1Generator) {
        Xorshiftplus128v1Generator { state }
    }
}

impl vstd::std_specs::convert::FromSpecImpl<[u64; 2]> for Xorshiftplus128v1Generator {
    open spec fn obeys_from_spec() -> bool {
        true
    }

    open spec fn from_spec(v: [u64; 2]) -> Xorshiftplus128v1Generator {
        Xorshiftplus128v1Generator { state: v }
    }
}

impl Generator<[u64; 1]> for Xorshiftplus128v1Generator {
    open spec fn wf(&self) -> bool {
        true
    }

    open spec fn next_block_spec(&self) -> Seq<u64> {
        seq![xorshiftplus128v1_out_spec(self.state@)]
    }

    open spec fn next_state_spec(&self) -> Xorshiftplus128v1Generator {
        let ns = xorshiftplus128v1_next_state_spec(self.state@);
        Xorshiftplus128v1Generator {
            state: spec_array_update(spec_array_update(self.state, 0, ns[0]), 1, ns[1]),
        }
    }

    fn next_gen(&mut self, out: &mut [u64; 1]) {
        out[0] = xorshiftplus128v1_next(&mut self.state);
        proof {
            assert(out@ =~= old(self).next_block_spec());
            assert(self.state =~= old(self).next_state_spec().state);
        }
    }
}

/// The second two-word xor-shift generator.
pub struct Xorshiftplus128v2Generator {
    pub state: [u64; 2],
}

impl From<[u64; 2]> for Xorshiftplus128v2Generator {
    fn from(state: [u64; 2]) -> (r: Xorshiftplus128v2Generator) {
        Xorshiftplus128v2Generator { state }
    }
}

impl vstd::std_specs::convert::FromSpecImpl<[u64; 2]> for Xorshiftplus128v2Generator {
    open spec fn obeys_from_spec() -> bool {
        true
    }

    open spec fn from_spec(v: [u64; 2]) -> Xorshiftplus128v2Generator {
        Xorshiftplus128v2Generator { state: v }
    }
}

impl Generator<[u64; 1]> for Xorshiftplus128v2Generator {
    open spec fn wf(&self) -> bool {
        true
    }

    open spec fn next_block_spec(&self) -> Seq<u64> {
        seq![xorshiftplus128v2_out_spec(self.state@)]
    }

    open spec fn next_state_spec(&self) -> Xorshiftplus128v2Generator {
        let ns = xorshiftplus128v2_next_state_spec(self.state@);
        Xorshiftplus128v2Generator {
            state: spec_array_update(spec_array_update(self.state, 0, ns[0]), 1, ns[1]),
        }
    }

    fn next_gen(&mut self, out: &mut [u64; 1]) {
        out[0] = xorshiftplus128v2_next(&mut self.state);
        proof {
            assert(out@ =~= old(self).next_block_spec());
            assert(self.state =~= old(self).next_state_spec().state);
        }
    }
}

} // verus!
