//! The seeded pseudo-random source that permutation tables are drawn from.
//!
//! The generator is `rand_xorshift::XorShiftRng`. Its algorithm is not
//! written out here. What this module assumes of it is that it is a state
//! machine: the seed alone decides the state a generator starts in, the state
//! alone decides the next state, and the word drawn is the last word of that
//! next state. None of this is proved.

use rand::RngCore;
use rand::SeedableRng;
use rand_xorshift::XorShiftRng;
use vstd::prelude::*;

verus! {

/// `rand_xorshift::XorShiftRng`, carried through verified code as an opaque
/// value.
#[verifier::external_type_specification]
#[verifier::external_body]
pub struct ExXorShiftRng(XorShiftRng);

/// The words that a generator holds, in the order `x`, `y`, `z`, `w`.
pub uninterp spec fn xorshift_state(rng: XorShiftRng) -> Seq<u32>;

/// The words that `XorShiftRng::from_seed` gives a generator for `seed`.
pub uninterp spec fn seeded_state(seed: Seq<u8>) -> Seq<u32>;

/// The words that a generator holds after `XorShiftRng::next_u32`, when it
/// held `state` before.
pub uninterp spec fn next_state(state: Seq<u32>) -> Seq<u32>;

/// The state after `n` draws from `state`.
pub open spec fn state_after(state: Seq<u32>, n: nat) -> Seq<u32>
    decreases n,
{
    if n == 0 {
        state
    } else {
        next_state(state_after(state, (n - 1) as nat))
    }
}

/// Draw number `i` from a generator in state `start`, counted from zero.
pub open spec fn drawn_word(start: Seq<u32>, i: int) -> u32 {
    state_after(start, (i + 1) as nat).last()
}

/// Calls `XorShiftRng::from_seed`. Claims that the words of the new
/// generator depend on the seed alone.
#[verifier::external_body]
pub(crate) fn from_seed(seed: [u8; 16]) -> (rng: XorShiftRng)
    ensures
        xorshift_state(rng) == seeded_state(seed@),
{
    XorShiftRng::from_seed(seed)
}

/// Calls `XorShiftRng::next_u32`. Claims that the words the generator holds
/// afterwards depend on those it held before alone, and that the word
/// returned is the last of them, `w`.
#[verifier::external_body]
pub(crate) fn next_u32(rng: &mut XorShiftRng) -> (word: u32)
    ensures
        xorshift_state(*final(rng)) == next_state(xorshift_state(*old(rng))),
        word == next_state(xorshift_state(*old(rng))).last(),
{
    rng.next_u32()
}

} // verus!
