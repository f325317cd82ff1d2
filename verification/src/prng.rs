//! A small permuted-congruential pseudo-random generator with 64 bits of
//! state and a 32-bit output, used to fill buffers with reproducible noise.

use vstd::prelude::*;
use vstd::wrapping::u64_specs;

verus! {

/// Multiplier of the linear-congruential state step.
pub const PCG_MULTIPLIER: u64 = 6364136223846793005;

/// Generator state: the congruential accumulator and the odd stream increment.
pub struct Pcg32 {
    pub state: u64,
    pub inc: u64,
}

/// The state after one step of the congruential recurrence, modulo `2^64`.
pub open spec fn pcg_next_state(state: u64, inc: u64) -> u64 {
    u64_specs::wrapping_add(u64_specs::wrapping_mul(state, PCG_MULTIPLIER), inc)
}

/// The xorshifted bits of a state, truncated to 32 bits.
pub open spec fn pcg_xorshift(state: u64) -> u32 {
    ((((state >> 18) ^ state) >> 27) & 0xffff_ffff) as u32
}

/// The rotation amount drawn from the top five bits of a state.
pub open spec fn pcg_rotation(state: u64) -> u32 {
    (state >> 59) as u32
}

/// The 32-bit output drawn from a state: xorshift, then rotate right.
pub open spec fn pcg_output(state: u64) -> u32 {
    (pcg_xorshift(state) >> pcg_rotation(state)) | (pcg_xorshift(state) << (
    ((32 - pcg_rotation(state)) % 32) as u32))
}

impl Pcg32 {
    /// Steps the state once and returns the output drawn from the state
    /// before the step.
    pub fn next_u32(&mut self) -> (r: u32)
        ensures
            final(self).state == pcg_next_state(old(self).state, old(self).inc),
            final(self).inc == old(self).inc,
            r == pcg_output(old(self).state),
    {
        let old_state: u64 = self.state;
        self.state = old_state.wrapping_mul(PCG_MULTIPLIER).wrapping_add(self.inc);
        proof {
            assert((((old_state >> 18) ^ old_state) >> 27) & 0xffff_ffff < 0x1_0000_0000)
                by (bit_vector);
            assert(old_state >> 59 < 32) by (bit_vector);
        }
        let xorshifted: u32 = ((((old_state >> 18) ^ old_state) >> 27) & 0xffff_ffff) as u32;
        let rotation: u32 = (old_state >> 59) as u32;
        (xorshifted >> rotation) | (xorshifted << ((32 - rotation) % 32))
    }

    /// Seeds a generator: the stream increment is forced odd, and the state
    /// is stepped twice to mix the seed in.
    pub fn new(init_state: u64, init_seq: u64) -> (rng: Pcg32)
        ensures
            rng.inc == (init_seq << 1) | 1,
            rng.state == pcg_next_state(
                u64_specs::wrapping_add(pcg_next_state(0, (init_seq << 1) | 1), init_state),
                (init_seq << 1) | 1,
            ),
    {
        let mut rng = Pcg32 { state: 0, inc: (init_seq << 1) | 1 };
        rng.next_u32();
        rng.state = rng.state.wrapping_add(init_state);
        rng.next_u32();
        rng
    }
}

impl Default for Pcg32 {
    /// The generator with the algorithm's published default state and
    /// stream constants.
    fn default() -> (r: Self)
        ensures
            r.state == 0x853c49e6748fea9b,
            r.inc == 0xda3e39cb94b95bdb,
    {
        Pcg32 { state: 0x853c49e6748fea9b, inc: 0xda3e39cb94b95bdb }
    }
}

} // verus!
