//! The integer side of the starfield test: the linear congruential
//! generator that scatters the stars, and the index buffer of the points.

use vstd::prelude::*;

verus! {

/// The number of stars.
pub const NUM_STARS: usize = 400;

/// The multiplier of the generator.
pub const LCG_MULTIPLIER: u64 = 6364136223846793005;

/// The increment of the generator.
pub const LCG_INCREMENT: u64 = 1442695040888963407;

/// Mixed into a star's seed to draw its x position.
pub const X_SEED_MASK: u64 = 0xdeadbeef;

/// Mixed into a star's seed to draw its y position.
pub const Y_SEED_MASK: u64 = 0xcafebabe;

/// One step of the generator from `seed`, modulo 2^64.
pub open spec fn lcg_state(seed: u64) -> nat {
    ((seed as nat) * (LCG_MULTIPLIER as nat) + (LCG_INCREMENT as nat)) % 0x1_0000_0000_0000_0000
}

/// The upper 32 bits of one generator step from `seed`; the test maps them
/// onto [-1, 1].
pub fn lcg_bits(seed: u64) -> (bits: u32)
    ensures
        bits == lcg_state(seed) / 0x1_0000_0000,
{
    let product = seed.wrapping_mul(LCG_MULTIPLIER);
    let x = product.wrapping_add(LCG_INCREMENT);
    proof {
        let m: int = 0x1_0000_0000_0000_0000;
        let full: int = (seed as int) * (LCG_MULTIPLIER as int);
        assert(product as int == full % m);
        vstd::arithmetic::div_mod::lemma_add_mod_noop(full, LCG_INCREMENT as int, m);
        vstd::arithmetic::div_mod::lemma_small_mod(LCG_INCREMENT as nat, m as nat);
        if product as int + LCG_INCREMENT as int > u64::MAX as int {
            assert(x as int == product as int + LCG_INCREMENT as int - m);
            vstd::arithmetic::div_mod::lemma_mod_sub_multiples_vanish(
                product as int + LCG_INCREMENT as int,
                m,
            );
            vstd::arithmetic::div_mod::lemma_small_mod(x as nat, m as nat);
        } else {
            vstd::arithmetic::div_mod::lemma_small_mod(x as nat, m as nat);
        }
        assert(x as int == lcg_state(seed));
    }
    let bits = x >> 32;
    assert(bits == x / 0x1_0000_0000) by (bit_vector)
        requires bits == x >> 32;
    assert(bits <= u32::MAX) by (bit_vector)
        requires bits == x >> 32;
    bits as u32
}

/// The generator bits for the x position of the star with `seed`.
pub fn star_x_bits(seed: u64) -> (bits: u32)
    ensures
        bits == lcg_state(seed ^ X_SEED_MASK) / 0x1_0000_0000,
{
    lcg_bits(seed ^ X_SEED_MASK)
}

/// The generator bits for the y position of the star with `seed`.
pub fn star_y_bits(seed: u64) -> (bits: u32)
    ensures
        bits == lcg_state(seed ^ Y_SEED_MASK) / 0x1_0000_0000,
{
    lcg_bits(seed ^ Y_SEED_MASK)
}

/// The index buffer of `count` points drawn one by one: 0, 1, .., count - 1.
pub fn point_indices(count: u16) -> (indices: Vec<u16>)
    ensures
        indices@.len() == count,
        forall|i: int| 0 <= i < count ==> indices@[i] == i,
{
    let mut indices: Vec<u16> = Vec::new();
    let mut i: u16 = 0;
    while i < count
        invariant
            i <= count,
            indices@.len() == i,
            forall|j: int| 0 <= j < i ==> indices@[j] == j,
        decreases count - i,
    {
        indices.push(i);
        i = i + 1;
    }
    indices
}

} // verus!
