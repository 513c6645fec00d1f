//! Derivation of one generator per row from a single seed.
//!
//! The seed is mixed into a master generator. Row `i` takes the master's
//! draw number `i + 1`, mixes it a second time with other constants, and
//! warms the resulting generator up before use.

use vstd::prelude::*;
use crate::generator::{mix_n, XorShift32};

verus! {

/// Multiplier of the first mixing pass, from seed to master state.
pub const MASTER_FACTOR: u32 = 0xDEAD_BEEF;

/// Increment of the first mixing pass.
pub const MASTER_OFFSET: u32 = 0xCAFE_BABE;

/// Multiplier of the second mixing pass, from master draw to row state.
pub const ROW_FACTOR: u32 = 0x4D0D_F4C7;

/// Increment of the second mixing pass.
pub const ROW_OFFSET: u32 = 0x8980_AB2B;

/// Draws discarded from a freshly seeded generator before it is used.
pub const WARMUP_STEPS: usize = 100;

/// `value * factor + offset`, reduced modulo 2^32.
pub open spec fn mul_add_mod(value: u32, factor: u32, offset: u32) -> u32 {
    ((value as int * factor as int + offset as int) % 0x1_0000_0000) as u32
}

/// The state a master generator is seeded with, before warm-up.
pub open spec fn master_state_of(seed: u32) -> u32 {
    mul_add_mod(seed, MASTER_FACTOR, MASTER_OFFSET)
}

/// The state a row generator is seeded with, before warm-up.
pub open spec fn row_state_of(draw: u32) -> u32 {
    mul_add_mod(draw, ROW_FACTOR, ROW_OFFSET)
}

/// The master generator's state once warmed up.
pub open spec fn master_of(seed: u32) -> u32 {
    mix_n(master_state_of(seed), WARMUP_STEPS as nat)
}

/// The generator bound to `row`: seeded from the master's draw number
/// `row + 1` and warmed up.
pub open spec fn row_generator_of(seed: u32, row: nat) -> XorShift32 {
    XorShift32 { x: mix_n(row_state_of(mix_n(master_of(seed), row + 1)), WARMUP_STEPS as nat) }
}

/// The generators of rows `0..height`, in row order.
pub open spec fn row_generators_of(seed: u32, height: nat) -> Seq<XorShift32> {
    Seq::new(height, |row: int| row_generator_of(seed, row as nat))
}

/// The wrapping multiply-add that both mixing passes share.
fn mul_add(value: u32, factor: u32, offset: u32) -> (state: u32)
    ensures
        state == mul_add_mod(value, factor, offset),
{
    let product: u32 = value.wrapping_mul(factor);
    let state: u32 = product.wrapping_add(offset);
    proof {
        let p: int = value as int * factor as int;
        assert(value as nat * factor as nat == p) by (nonlinear_arith)
            requires
                p == value as int * factor as int,
        ;
        assert(product as int == p % 0x1_0000_0000);
        assert((p % 0x1_0000_0000 + offset as int) % 0x1_0000_0000 == (p + offset as int)
            % 0x1_0000_0000) by {
            vstd::arithmetic::div_mod::lemma_add_mod_noop(p, offset as int, 0x1_0000_0000);
            vstd::arithmetic::div_mod::lemma_add_mod_noop(
                p % 0x1_0000_0000,
                offset as int,
                0x1_0000_0000,
            );
            vstd::arithmetic::div_mod::lemma_mod_twice(p, 0x1_0000_0000);
        }
    }
    state
}

/// First mixing pass: the state that seeds the master generator.
pub fn master_state(seed: u32) -> (state: u32)
    ensures
        state == master_state_of(seed),
{
    mul_add(seed, MASTER_FACTOR, MASTER_OFFSET)
}

/// Second mixing pass: the state that seeds a row generator, from one
/// draw of the master generator.
pub fn row_state(draw: u32) -> (state: u32)
    ensures
        state == row_state_of(draw),
{
    mul_add(draw, ROW_FACTOR, ROW_OFFSET)
}

/// Derives the generators of rows `0..height` from `seed`.
pub fn schedule_rows(seed: u32, height: u32) -> (rngs: Vec<XorShift32>)
    ensures
        rngs@ == row_generators_of(seed, height as nat),
{
    let mut master = XorShift32::new(master_state(seed)).step_forward(WARMUP_STEPS);
    let mut rngs: Vec<XorShift32> = Vec::new();
    let mut row: u32 = 0;
    while row < height
        invariant
            row <= height,
            rngs@.len() == row,
            master.x == mix_n(master_of(seed), row as nat),
            forall|i: int| 0 <= i < row ==> rngs@[i] == row_generator_of(seed, i as nat),
        decreases height - row,
    {
        let draw = master.next();
        let rng = XorShift32::new(row_state(draw)).step_forward(WARMUP_STEPS);
        rngs.push(rng);
        row += 1;
    }
    rngs
}

} // verus!
