//! A fast non-cryptographic generator over a single 64-bit word, carrying no
//! security guarantee; a variant of the same block-generator contract as the
//! cryptographic generator.

use vstd::prelude::*;

use crate::Generator;
use vstd::wrapping::u64_specs;

verus! {

/// The state after one step: the state plus the golden-ratio increment,
/// modulo 2^64.
pub open spec fn splitmix64_next_state_spec(s: u64) -> u64 {
    u64_specs::wrapping_add(s, 0x9e37_79b9_7f4a_7c15u64)
}

/// The word returned by one step: the advanced state put through two
/// xor-shift-multiply mixing rounds and a final xor-shift.
pub open spec fn splitmix64_out_spec(s: u64) -> u64 {
    let x = u64_specs::wrapping_add(s, 0x9e37_79b9_7f4a_7c15u64);
    let z1 = u64_specs::wrapping_mul(x ^ (x >> 30u64), 0xbf58_476d_1ce4_e5b9u64);
    let z2 = u64_specs::wrapping_mul(z1 ^ (z1 >> 27u64), 0x94d0_49bb_1331_11ebu64);
    z2 ^ (z2 >> 31u64)
}

/// One step of the generator: returns the output word and advances the
/// state in place.
pub fn splitmix64_next(state: &mut u64) -> (r: u64)
    ensures
        r == splitmix64_out_spec(*old(state)),
        *final(state) == splitmix64_next_state_spec(*old(state)),
{
    let x = (*state).wrapping_add(0x9e37_79b9_7f4a_7c15);
    let mut z = x;
    *state = x;
    z = (z ^ (z >> 30)).wrapping_mul(0xbf58_476d_1ce4_e5b9);
    z = (z ^ (z >> 27)).wrapping_mul(0x94d0_49bb_1331_11eb);
    z ^ (z >> 31)
}

/// The single-word fast generator.
pub struct Splitmix64Generator {
    pub state: u64,
}

impl From<u64> for Splitmix64Generator {
    fn from(seed: u64) -> (r: Splitmix64Generator) {
        Splitmix64Generator { state: seed }
    }
}

impl vstd::std_specs::convert::FromSpecImpl<u64> for Splitmix64Generator {
    open spec fn obeys_from_spec() -> bool {
        true
    }

    open spec fn from_spec(v: u64) -> Splitmix64Generator {
        Splitmix64Generator { state: v }
    }
}

impl Generator<[u64; 1]> for Splitmix64Generator {
    open spec fn wf(&self) -> bool {
        true
    }

    open spec fn next_block_spec(&self) -> Seq<u64> {
        seq![splitmix64_out_spec(self.state)]
    }

    open spec fn next_state_spec(&self) -> Splitmix64Generator {
        Splitmix64Generator { state: splitmix64_next_state_spec(self.state) }
    }

    fn next_gen(&mut self, out: &mut [u64; 1]) {
        out[0] = splitmix64_next(&mut self.state);
        proof {
            assert(out@ =~= old(self).next_block_spec());
        }
    }
}

/// The single-word fast generator exposed as a byte stream.
pub type Splitmix64Stream = crate::Buffer64<Splitmix64Generator, 1>;

} // verus!
