//! The stream of random words that a first generation is drawn from: the
//! ChaCha generator with twenty rounds of the `rand_chacha` crate, seeded from
//! a 64-bit integer.
//!
//! Nothing in this file is proved. The generator is an outside type, and the
//! contracts below state the one thing that the rest of the crate relies on:
//! that its output is a function of the seed and of the number of words drawn
//! before.

use rand::{RngCore, SeedableRng};
use rand_chacha::ChaCha20Rng;
use vstd::prelude::*;

verus! {

#[verifier::external_type_specification]
#[verifier::external_body]
pub struct ExChaCha20Rng(rand_chacha::ChaCha20Rng);

/// The word at position `index` of the stream that belongs to `seed`: what
/// the call number `index`, counted from zero, of `next_u32` returns on a
/// generator that `ChaCha20Rng::seed_from_u64(seed)` made.
pub uninterp spec fn seeded_word(seed: u64, index: nat) -> u32;

/// The word that `generator` returns after `ahead` further draws: what its
/// call number `ahead`, counted from zero and from its present state, of
/// `next_u32` returns.
pub uninterp spec fn upcoming_word(generator: ChaCha20Rng, ahead: nat) -> u32;

/// Calls `ChaCha20Rng::seed_from_u64`, which expands the seed to a key with a
/// fixed permutation and starts the stream at its first word. The contract
/// claims that the words to come are those of the seed's stream, from its
/// start.
#[verifier::external_body]
pub(crate) fn seeded_generator(seed: u64) -> (generator: ChaCha20Rng)
    ensures
        forall|ahead: nat| #[trigger] upcoming_word(generator, ahead) == seeded_word(seed, ahead),
{
    ChaCha20Rng::seed_from_u64(seed)
}

/// Calls `next_u32` of `ChaCha20Rng`, which hands out the next word of the
/// stream and moves one word on. The contract claims that the word is the one
/// that was upcoming, and that what was `ahead + 1` draws away is now `ahead`
/// draws away.
#[verifier::external_body]
pub(crate) fn next_word(generator: &mut ChaCha20Rng) -> (word: u32)
    ensures
        word == upcoming_word(*old(generator), 0),
        forall|ahead: nat| #[trigger]
            upcoming_word(*final(generator), ahead) == upcoming_word(
                *old(generator),
                ahead + 1,
            ),
{
    generator.next_u32()
}

} // verus!
