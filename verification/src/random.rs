//! Random numbers from a generator that the operating system seeds.

use rand::rngs::{StdRng, SysError, SysRng};
use rand::{SeedableRng, TryRng};
use vstd::prelude::*;

verus! {

/// `rand`'s standard generator.
#[verifier::external_type_specification]
#[verifier::external_body]
pub struct ExStdRng(StdRng);

/// The error of the operating system's source of random bytes.
#[verifier::external_type_specification]
#[verifier::external_body]
pub struct ExSysError(SysError);

/// Whether `word` has been drawn from a generator, which was `before` and then is `after`. Any number
/// can be, but only a draw tells of one that has.
pub closed spec fn was_drawn_word(before: StdRng, word: u32, after: StdRng) -> bool {
    true
}

/// What numbers are drawn for. Each has a generator of its own.
pub enum Purpose {
    /// A code verifier.
    CodeVerifier,

    /// A state.
    State,
}

/// Whether a generator has been seeded for the given purpose. Any generator can be, but only seeding
/// tells of one that has.
pub closed spec fn was_seeded(rng: StdRng, purpose: Purpose) -> bool {
    true
}

/// Whether `words` have been drawn one after the other from a generator that was seeded for the given
/// purpose.
pub open spec fn were_drawn(words: Seq<u32>, purpose: Purpose) -> bool {
    exists|rngs: Seq<StdRng>| #[trigger]
        rngs.len() == words.len() + 1 && was_seeded(rngs[0], purpose) && is_run(rngs, words)
}

/// Whether each of `words` has been drawn from a generator that was the one of `rngs` in its place, and
/// then is the next.
pub open spec fn is_run(rngs: Seq<StdRng>, words: Seq<u32>) -> bool {
    forall|i: int|
        0 <= i < words.len() ==> was_drawn_word(rngs[i], #[trigger] words[i], rngs[i + 1])
}

/// Whether `bytes` have been drawn from a generator. Any bytes can be, but only a draw tells of those
/// that have.
pub closed spec fn was_drawn(bytes: Seq<u8>) -> bool {
    true
}

/// Seeds a generator from the operating system with `StdRng::try_from_rng`.
///
/// Nothing is claimed of the result: it rests on the system.
#[verifier::external_body]
pub(crate) fn seeded() -> (rng: Result<StdRng, SysError>)
{
    StdRng::try_from_rng(&mut SysRng)
}

/// Seeds a generator for the given purpose.
pub(crate) fn seeded_for(Ghost(purpose): Ghost<Purpose>) -> (rng: Result<StdRng, SysError>)
    ensures
        rng matches Ok(r) ==> was_seeded(r, purpose),
{
    seeded()
}

/// Draws a number with `StdRng::try_next_u32`, which cannot fail.
///
/// The contract says that the number has been drawn from the generator, and no more: which one it is
/// rests on chance.
#[verifier::external_body]
pub(crate) fn next_u32(rng: &mut StdRng) -> (word: u32)
    ensures
        was_drawn_word(*old(rng), word, *final(rng)),
{
    let Ok(word) = rng.try_next_u32();
    word
}

/// Overwrites `bytes` with random ones by `StdRng::try_fill_bytes`, which cannot fail.
///
/// The contract says that the number of bytes stays and that they have been drawn; which ones they
/// are rests on chance.
#[verifier::external_body]
pub(crate) fn fill(rng: &mut StdRng, bytes: &mut Vec<u8>)
    ensures
        final(bytes)@.len() == old(bytes)@.len(),
        was_drawn(final(bytes)@),
{
    let Ok(()) = rng.try_fill_bytes(bytes);
}

} // verus!
