//! A fast non-cryptographic generator over four 32-bit words, carrying no
//! security guarantee; a variant of the same block-generator contract as the
//! cryptographic generator.

use vstd::prelude::*;

use crate::Generator;
use crate::words::rotl32;
use crate::words::rotl32_spec;
use vstd::array::spec_array_update;
use vstd::wrapping::u32_specs;

verus! {

/// The word returned by one step: the second state word.
pub open spec fn romu32x4_out_spec(s: Seq<u32>) -> u32
    recommends
        s.len() == 4,
{
    s[1]
}

/// The state after one step: a multiply, a rotate-add, a subtract, and an
/// add-rotate over the four words, all modulo 2^32.
pub open spec fn romu32x4_next_state_spec(s: Seq<u32>) -> Seq<u32>
    recommends
        s.len() == 4,
{
    seq![
        u32_specs::wrapping_mul(3323815723u32, s[3]),
        u32_specs::wrapping_add(s[3], rotl32_spec(s[0], 26)),
        u32_specs::wrapping_sub(s[2], s[1]),
        rotl32_spec(u32_specs::wrapping_add(s[2], s[0]), 9),
    ]
}

/// One step of the generator: returns the output word and advances the four
/// state words in place.
pub fn romu32x4_next(state: &mut [u32; 4]) -> (r: u32)
    ensures
        r == romu32x4_out_spec(old(state)@),
        final(state)@ == romu32x4_next_state_spec(old(state)@),
{
    let wp = state[0];
    let xp = state[1];
    let yp = state[2];
    let zp = state[3];
    state[0] = 3323815723u32.wrapping_mul(zp);
    state[1] = zp.wrapping_add(rotl32(wp, 26));
    state[2] = yp.wrapping_sub(xp);
    state[3] = yp.wrapping_add(wp);
    state[3] = rotl32(state[3], 9);
    proof {
        assert(state@ =~= romu32x4_next_state_spec(old(state)@));
    }
    xp
}

/// The four-word fast generator.
pub struct Romu32x4Generator {
    pub state: [u32; 4],
}

impl From<[u32; 4]> for Romu32x4Generator {
    fn from(state: [u32; 4]) -> (r: Romu32x4Generator) {
        Romu32x4Generator { state }
    }
}

impl vstd::std_specs::convert::FromSpecImpl<[u32; 4]> for Romu32x4Generator {
    open spec fn obeys_from_spec() -> bool {
        true
    }

    open spec fn from_spec(v: [u32; 4]) -> Romu32x4Generator {
        Romu32x4Generator { state: v }
    }
}

impl Generator<[u32; 1]> for Romu32x4Generator {
    open spec fn wf(&self) -> bool {
        true
    }

    open spec fn next_block_spec(&self) -> Seq<u32> {
        seq![romu32x4_out_spec(self.state@)]
    }

    open spec fn next_state_spec(&self) -> Romu32x4Generator {
        let ns = romu32x4_next_state_spec(self.state@);
        Romu32x4Generator {
            state: spec_array_update(
                spec_array_update(
                    spec_array_update(spec_array_update(self.state, 0, ns[0]), 1, ns[1]),
                    2,
                    ns[2],
                ),
                3,
                ns[3],
            ),
        }
    }

    fn next_gen(&mut self, out: &mut [u32; 1]) {
        out[0] = romu32x4_next(&mut self.state);
        proof {
            assert(out@ =~= old(self).next_block_spec());
            assert(self.state =~= old(self).next_state_spec().state);
        }
    }
}

/// The four-word fast generator exposed as a byte stream.
pub type Romu32x4Stream = crate::Buffer32<Romu32x4Generator, 1>;

} // verus!
