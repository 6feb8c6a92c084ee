use rand::rngs::StdRng;
use rand::Rng;
use rand::SeedableRng;
use vstd::prelude::*;

verus! {

// The two names below say that building a generator and drawing from one are
// functions of their arguments alone. That is read off rand 0.9.5, where
// `StdRng` is ChaCha with 12 rounds; the type is documented as free to take
// another algorithm in a later version, under which the names would stand for
// other functions of the same arguments.

/// `rand::rngs::StdRng`, the generator that feeds `RND`. Nothing is known of
/// what a value of it holds.
#[verifier::external_type_specification]
#[verifier::external_body]
pub struct ExStdRng(StdRng);

/// The generator that `StdRng::seed_from_u64` builds from `seed`.
pub uninterp spec fn seeded(seed: u64) -> StdRng;

/// Calls `StdRng::seed_from_u64`, which spreads `seed` over a key of 32
/// bytes by a fixed recurrence and sets up the generator from that key,
/// without touching the operating system or any other state. The contract
/// claims that the generator that comes back depends on `seed` alone, and
/// gives it the name `seeded(seed)`.
#[verifier::external_body]
pub(crate) fn seeded_generator(seed: u64) -> (rng: StdRng)
    ensures
        rng == seeded(seed),
{
    StdRng::seed_from_u64(seed)
}

/// What `Rng::random::<u8>` does on a generator: the byte that it hands
/// out, and the generator as it is left.
pub uninterp spec fn next_draw(rng: StdRng) -> (u8, StdRng);

/// Calls `Rng::random::<u8>` on the generator, which takes the next word of
/// the generator's output, refilling its buffer from its own state where
/// that is used up, and hands out the low byte of the word. The contract
/// claims that the byte and the generator's next state depend on the
/// generator alone, and gives the pair the name `next_draw`.
#[verifier::external_body]
pub(crate) fn next_random_byte(rng: &mut StdRng) -> (b: u8)
    ensures
        (b, *final(rng)) == next_draw(*old(rng)),
{
    rng.random::<u8>()
}

} // verus!
