//! A seedable random generator (SplitMix64), passed explicitly to the
//! code that draws jitter, so that a render is reproducible from its seed.

use vstd::prelude::*;

verus! {

/// Increment of the generator state on each draw.
pub const GAMMA: u64 = 0x9E3779B97F4A7C15;

pub const MIX_A: u64 = 0xBF58476D1CE4E5B9;

pub const MIX_B: u64 = 0x94D049BB133111EB;

/// Spacing between the starting states of per-worker generators.
pub const WORKER_STRIDE: u64 = 0xD1B54A32D192ED03;

/// Number of random bits in a value of `next_unit_bits`.
pub const UNIT_BITS: u64 = 53;

/// The output function: scrambles a state into a drawn value.
pub open spec fn mix(z: u64) -> u64 {
    let a = (z ^ (z >> 30u64)).wrapping_mul(MIX_A);
    let b = (a ^ (a >> 27u64)).wrapping_mul(MIX_B);
    b ^ (b >> 31u64)
}

/// The state after `k` draws from `state`.
pub open spec fn advance(state: u64, k: nat) -> u64
    decreases k,
{
    if k == 0 {
        state
    } else {
        advance(state, (k - 1) as nat).wrapping_add(GAMMA)
    }
}

/// The value of draw number `k` (counting from 0) from `state`.
pub open spec fn draw(state: u64, k: nat) -> u64 {
    mix(advance(state, k + 1))
}

/// Starting state of the generator of worker `worker` in a run seeded by `seed`.
pub open spec fn worker_state(seed: u64, worker: u64) -> u64 {
    seed.wrapping_add(worker.wrapping_mul(WORKER_STRIDE))
}

pub struct Rng {
    state: u64,
}

impl View for Rng {
    type V = u64;

    closed spec fn view(&self) -> u64 {
        self.state
    }
}

impl Rng {
    pub fn new(seed: u64) -> (r: Rng)
        ensures
            r@ == seed,
    {
        Rng { state: seed }
    }

    /// The generator of one worker: distinct workers of a run start from
    /// distinct states (`lemma_workers_distinct`).
    pub fn for_worker(seed: u64, worker: u64) -> (r: Rng)
        ensures
            r@ == worker_state(seed, worker),
    {
        Rng { state: seed.wrapping_add(worker.wrapping_mul(WORKER_STRIDE)) }
    }

    /// Draws 64 random bits.
    pub fn next_u64(&mut self) -> (r: u64)
        ensures
            final(self)@ == advance(old(self)@, 1),
            r == draw(old(self)@, 0),
    {
        proof {
            reveal_with_fuel(advance, 2);
        }
        self.state = self.state.wrapping_add(GAMMA);
        let z = self.state;
        let a = (z ^ (z >> 30u64)).wrapping_mul(MIX_A);
        let b = (a ^ (a >> 27u64)).wrapping_mul(MIX_B);
        b ^ (b >> 31u64)
    }

    /// Draws `UNIT_BITS` random bits: the top bits of `next_u64`. Divided
    /// by 2^53 they give a uniform value in [0, 1).
    pub fn next_unit_bits(&mut self) -> (r: u64)
        ensures
            final(self)@ == advance(old(self)@, 1),
            r == draw(old(self)@, 0) >> 11u64,
            r < 0x20000000000000u64,
    {
        let v = self.next_u64();
        assert(v >> 11u64 < 0x20000000000000u64) by (bit_vector);
        v >> 11u64
    }
}

/// After `j` draws, the generator continues the same stream: its draw
/// number `k` is draw number `j + k` of the starting state.
pub proof fn lemma_stream_continues(state: u64, j: nat, k: nat)
    ensures
        draw(advance(state, j), k) == draw(state, j + k),
{
    lemma_advance_adds(state, j, k + 1);
}

/// Advancing by `j` then by `k` is advancing by `j + k`.
pub proof fn lemma_advance_adds(state: u64, j: nat, k: nat)
    ensures
        advance(advance(state, j), k) == advance(state, j + k),
    decreases k,
{
    if k > 0 {
        lemma_advance_adds(state, j, (k - 1) as nat);
        assert(advance(state, j + k) == advance(state, (j + k - 1) as nat).wrapping_add(GAMMA));
    }
}

/// Multiplying by `WORKER_STRIDE` and then by this constant, both modulo
/// 2^64, gives back the value: the stride is odd, so it has an inverse.
pub const WORKER_STRIDE_INVERSE: u64 = 0x06106ccfa448e5ab;

proof fn lemma_stride_inverse(w: u64)
    by (bit_vector)
    ensures
        w.wrapping_mul(WORKER_STRIDE).wrapping_mul(WORKER_STRIDE_INVERSE) == w,
{
}

/// Distinct workers of one run start from distinct states.
pub proof fn lemma_workers_distinct(seed: u64, w1: u64, w2: u64)
    requires
        w1 != w2,
    ensures
        worker_state(seed, w1) != worker_state(seed, w2),
{
    lemma_stride_inverse(w1);
    lemma_stride_inverse(w2);
    let a = w1.wrapping_mul(WORKER_STRIDE);
    let b = w2.wrapping_mul(WORKER_STRIDE);
    assert(seed.wrapping_add(a) == seed.wrapping_add(b) ==> a == b) by (bit_vector);
}

} // verus!
