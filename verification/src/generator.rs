//! The 32-bit xorshift generator that every pixel is drawn from.

use vstd::prelude::*;

verus! {

/// One round of the shift-xor mix: left by 13, right by 17, left by 5.
pub open spec fn mix(x: u32) -> u32 {
    let a = x ^ (x << 13u32);
    let b = a ^ (a >> 17u32);
    b ^ (b << 5u32)
}

/// The state reached from `x` after `n` rounds of `mix`.
pub open spec fn mix_n(x: u32, n: nat) -> u32
    decreases n,
{
    if n == 0 {
        x
    } else {
        mix(mix_n(x, (n - 1) as nat))
    }
}

/// Drawing `a` values and then `b` more is drawing `a + b` values.
pub proof fn lemma_mix_n_add(x: u32, a: nat, b: nat)
    ensures
        mix_n(mix_n(x, a), b) == mix_n(x, a + b),
    decreases b,
{
    if b > 0 {
        lemma_mix_n_add(x, a, (b - 1) as nat);
        assert((a + b - 1) as nat == a + (b - 1) as nat);
    }
}

/// Zero is the one state that a round leaves in place, and the one state
/// that a round leads to zero from.
pub proof fn lemma_mix_zero(x: u32)
    ensures
        mix(x) == 0 <==> x == 0,
{
    assert(mix(x) == 0 <==> x == 0) by (bit_vector);
}

/// A generator at zero stays at zero, and one away from zero never
/// reaches it, however many values are drawn.
pub proof fn lemma_mix_n_zero(x: u32, n: nat)
    ensures
        mix_n(x, n) == 0 <==> x == 0,
    decreases n,
{
    if n > 0 {
        lemma_mix_n_zero(x, (n - 1) as nat);
        lemma_mix_zero(mix_n(x, (n - 1) as nat));
    }
}

/// A xorshift generator with a single word of state.
///
/// Nothing keeps the state away from zero: a generator made at zero draws
/// zeros only.
#[derive(Clone, Copy, Debug, Hash, PartialEq, Eq, Structural)]
pub struct XorShift32 {
    pub x: u32,
}

impl XorShift32 {
    /// A generator whose state is `x`.
    pub fn new(x: u32) -> (rng: Self)
        ensures
            rng.x == x,
    {
        Self { x }
    }

    /// Advances the state by one round and returns the new state.
    pub fn next(&mut self) -> (value: u32)
        ensures
            value == mix(old(self).x),
            final(self).x == value,
    {
        let mut x: u32 = self.x;
        x ^= x << 13u32;
        x ^= x >> 17u32;
        x ^= x << 5u32;
        self.x = x;
        x
    }

    /// Draws `steps` values and discards them.
    pub fn step_forward(self, steps: usize) -> (rng: Self)
        ensures
            rng.x == mix_n(self.x, steps as nat),
    {
        let mut rng = self;
        let mut done: usize = 0;
        while done < steps
            invariant
                done <= steps,
                rng.x == mix_n(self.x, done as nat),
            decreases steps - done,
        {
            rng.next();
            done += 1;
        }
        rng
    }
}

} // verus!
