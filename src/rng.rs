//! A multiplicative congruential generator whose state is threaded explicitly
//! through the renderer, so that a render is reproducible from its seed.

use vstd::prelude::*;

verus! {

/// The multiplier applied to the state at each step.
pub const MULTIPLIER: u64 = 0xda94_2042_e4dd_58b5;

/// The state a generator starts from when no other seed is given.
pub const DEFAULT_SEED: u64 = 0xda94_2042_e4dd_58b5;

/// One step of the generator: the state times the multiplier, modulo 2^64.
#[verifier::opaque]
pub open spec fn step(s: u64) -> u64 {
    ((s as nat * MULTIPLIER as nat) % 0x1_0000_0000_0000_0000nat) as u64
}

/// What a state yields: its high 32 bits.
pub open spec fn output(s: u64) -> u32 {
    (s as nat / 0x1_0000_0000nat) as u32
}

/// The state after `n` steps from `s`.
pub open spec fn advance(s: u64, n: nat) -> u64
    decreases n,
{
    if n == 0 {
        s
    } else {
        step(advance(s, (n - 1) as nat))
    }
}

/// The first `n` values drawn from a generator in state `s`.
pub open spec fn stream(s: u64, n: nat) -> Seq<u32>
    decreases n,
{
    if n == 0 {
        seq![]
    } else {
        stream(s, (n - 1) as nat).push(output(advance(s, n)))
    }
}

/// The odd constant that spreads the seeds of neighbouring pixels apart.
pub const PIXEL_STRIDE: u64 = 0x9e37_79b9_7f4a_7c15;

/// The state of the generator of pixel `index` in a render seeded with
/// `seed`; it is odd, so that the stream never collapses to zero.
pub open spec fn pixel_state(seed: u64, index: u64) -> u64 {
    ((seed as nat + (index as nat * PIXEL_STRIDE as nat) % 0x1_0000_0000_0000_0000nat)
        % 0x1_0000_0000_0000_0000nat) as u64 | 1u64
}

proof fn lemma_advance_add(s: u64, m: nat, n: nat)
    ensures
        advance(advance(s, m), n) == advance(s, m + n),
    decreases n,
{
    if n > 0 {
        lemma_advance_add(s, m, (n - 1) as nat);
    }
}

/// Drawing `m` values and then `n` more yields the stream of `m + n` values:
/// a sequence of draws depends only on the state it starts from, however it
/// is divided among the samples that consume it.
pub proof fn lemma_stream_split(s: u64, m: nat, n: nat)
    ensures
        stream(s, m + n) == stream(s, m) + stream(advance(s, m), n),
    decreases n,
{
    if n == 0 {
        assert(stream(s, m) + stream(advance(s, m), 0) =~= stream(s, m));
    } else {
        lemma_stream_split(s, m, (n - 1) as nat);
        lemma_advance_add(s, m, n);
        assert(stream(s, m + n) == stream(s, (m + n - 1) as nat).push(output(advance(s, m + n))));
        assert(stream(advance(s, m), n) == stream(advance(s, m), (n - 1) as nat).push(
            output(advance(advance(s, m), n)),
        ));
        assert(stream(s, m + n) =~= stream(s, m) + stream(advance(s, m), n));
    }
}

proof fn lemma_step_odd(s: u64)
    requires
        s % 2 == 1,
    ensures
        step(s) % 2 == 1,
{
    reveal(step);
    let p = s as nat * MULTIPLIER as nat;
    let m = 0x1_0000_0000_0000_0000nat;
    assert(p % 2 == 1) by (nonlinear_arith)
        requires
            p == s as nat * MULTIPLIER as nat,
            s % 2 == 1,
            MULTIPLIER % 2 == 1,
    ;
    assert((p % m) % 2 == p % 2) by (nonlinear_arith)
        requires
            m == 2 * 0x8000_0000_0000_0000nat,
            p >= 0,
    ;
}

/// An odd state stays odd at every step, so a generator started from an odd
/// state never reaches the zero state, from which it would draw only zeros.
pub proof fn lemma_odd_state_stays_odd(s: u64, n: nat)
    requires
        s % 2 == 1,
    ensures
        advance(s, n) % 2 == 1,
        advance(s, n) != 0,
    decreases n,
{
    if n > 0 {
        lemma_odd_state_stays_odd(s, (n - 1) as nat);
        lemma_step_odd(advance(s, (n - 1) as nat));
    }
}

/// A source of uniformly distributed 32-bit values.
pub struct Rng {
    state: u64,
}

impl View for Rng {
    type V = u64;

    closed spec fn view(&self) -> u64 {
        self.state
    }
}

impl Rng {
    /// A generator in state `seed`.
    pub fn new(seed: u64) -> (r: Rng)
        ensures
            r@ == seed,
    {
        Rng { state: seed }
    }

    /// The generator of pixel `index` in a render seeded with `seed`: it
    /// depends on these two numbers alone, so pixels may be rendered in any
    /// order, on any worker, with the same draws.
    pub fn for_pixel(seed: u64, index: u64) -> (r: Rng)
        ensures
            r@ == pixel_state(seed, index),
            r@ % 2 == 1,
    {
        let s = seed.wrapping_add(index.wrapping_mul(PIXEL_STRIDE));
        assert((s | 1u64) % 2 == 1) by (bit_vector);
        Rng { state: s | 1 }
    }

    /// The current state.
    pub fn state(&self) -> (s: u64)
        ensures
            s == self@,
    {
        self.state
    }

    /// Steps the generator and returns the high half of the new state.
    pub fn next_u32(&mut self) -> (r: u32)
        ensures
            final(self)@ == step(old(self)@),
            r == output(final(self)@),
    {
        self.state = self.state.wrapping_mul(MULTIPLIER);
        proof {
            reveal(step);
        }
        let s = self.state;
        assert(s >> 32u64 == s / 0x1_0000_0000u64) by (bit_vector);
        (s >> 32) as u32
    }
}

} // verus!
