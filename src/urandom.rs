use rand::{RngCore, SeedableRng};
use vstd::prelude::*;

verus! {

/// Multiplier of the linear congruential generator.
pub const LCG_MUL: u64 = 6364136223846793005;

/// The generator state before any number has been drawn.
pub const INITIAL_SEED: u64 = 0xa2ce_a2ce;

/// One step of the generator: `s * LCG_MUL + 1`, modulo 2^64.
pub open spec fn lcg_next(s: u64) -> u64 {
    ((s as nat * LCG_MUL as nat + 1) % 0x1_0000_0000_0000_0000nat) as u64
}

/// Advances the generator state by one step.
pub fn next_seed(s: u64) -> (r: u64)
    ensures
        r == lcg_next(s),
{
    let m = s.wrapping_mul(LCG_MUL);
    proof {
        let x = s as nat * LCG_MUL as nat;
        vstd::arithmetic::div_mod::lemma_add_mod_noop(x as int, 1, 0x1_0000_0000_0000_0000int);
    }
    m.wrapping_add(1)
}

/// A step of the generator never returns to the state it started from: the
/// step flips the lowest bit, so two draws in a row never use the same state.
pub proof fn lemma_lcg_next_flips_parity(s: u64)
    ensures
        lcg_next(s) % 2 != s % 2,
        lcg_next(s) != s,
{
    let x = s as int * LCG_MUL as int + 1;
    vstd::arithmetic::div_mod::lemma_mod_mod(x, 2, 0x8000_0000_0000_0000int);
    assert(x % 2 != s as int % 2);
}

/// Draws a 31-bit random number: the high bits of the next state.
pub fn rand(seed: &mut u64) -> (r: i32)
    ensures
        *final(seed) == lcg_next(*old(seed)),
        r as int == *final(seed) as int / 0x2_0000_0000,
        0 <= r,
{
    let s = next_seed(*seed);
    *seed = s;
    let hi = s >> 33u64;
    assert(s >> 33u64 == s / 0x2_0000_0000) by (bit_vector);
    hi as i32
}

/// Draws a 64-bit random number: the next state, as a signed integer.
pub fn random(seed: &mut u64) -> (r: i64)
    ensures
        *final(seed) == lcg_next(*old(seed)),
        r == *final(seed) as i64,
{
    let s = next_seed(*seed);
    *seed = s;
    s as i64
}

/// Relies on rand's `SmallRng::seed_from_u64` and `RngCore::fill_bytes`: the
/// buffer is overwritten in place. Which bytes come out depends on the platform
/// (rand does not promise a reproducible `SmallRng`), so nothing more is stated.
#[verifier::external_body]
fn small_rng_fill(seed: u64, buf: &mut [u8])
    ensures
        final(buf)@.len() == old(buf)@.len(),
{
    let mut rng = rand::rngs::SmallRng::seed_from_u64(seed);
    rng.fill_bytes(buf);
}

/// Fills `buf` with pseudo-random bytes from a generator seeded by the next
/// draw, and returns the length of `buf`.
pub fn fill_random(seed: &mut u64, buf: &mut [u8]) -> (r: usize)
    ensures
        *final(seed) == lcg_next(*old(seed)),
        r == old(buf)@.len(),
        final(buf)@.len() == old(buf)@.len(),
{
    let s = random(seed) as u64;
    small_rng_fill(s, buf);
    buf.len()
}

} // verus!
