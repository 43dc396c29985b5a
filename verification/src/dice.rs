//! The source of chance. A draw comes from the `rand` crate: from its
//! thread-local generator, or from a generator of one's own that starts from
//! a seed and so can be run again. Nothing is known of a draw but its type.

use vstd::prelude::*;

verus! {

/// Calls `rand::random::<u8>()`. Any byte may come back, and two calls may
/// differ. The call fails only where the operating system cannot seed the
/// generator.
#[verifier::external_body]
pub(crate) fn random_u8() -> u8 {
    rand::random::<u8>()
}

/// Calls `rand::random::<usize>()`. Any value may come back.
#[verifier::external_body]
pub(crate) fn random_usize() -> usize {
    rand::random::<usize>()
}

/// Calls `rand::random::<u128>()`. Any value may come back.
#[verifier::external_body]
pub(crate) fn random_u128() -> u128 {
    rand::random::<u128>()
}

/// The standard generator of the `rand` crate, `rand::rngs::StdRng`. Its
/// state is not looked into.
#[verifier::external_type_specification]
#[verifier::external_body]
pub struct ExStdRng(rand::rngs::StdRng);

/// Calls `rand::SeedableRng::seed_from_u64` for the standard generator. Any
/// seed is taken.
#[verifier::external_body]
fn rng_from_seed(seed: u64) -> rand::rngs::StdRng {
    rand::SeedableRng::seed_from_u64(seed)
}

/// Calls `rand::Rng::gen::<u8>` on the generator. Any byte may come back.
#[verifier::external_body]
fn rng_u8(rng: &mut rand::rngs::StdRng) -> u8 {
    rand::Rng::gen(rng)
}

/// Calls `rand::Rng::gen::<usize>` on the generator. Any value may come
/// back.
#[verifier::external_body]
fn rng_usize(rng: &mut rand::rngs::StdRng) -> usize {
    rand::Rng::gen(rng)
}

/// Calls `rand::Rng::gen::<u128>` on the generator. Any value may come
/// back.
#[verifier::external_body]
fn rng_u128(rng: &mut rand::rngs::StdRng) -> u128 {
    rand::Rng::gen(rng)
}

/// The count of rolls after `more` rolls were drawn on top of `drawn`, up
/// to what the counter can hold.
pub open spec fn drawn_after(drawn: u64, more: nat) -> u64 {
    if drawn + more > u64::MAX {
        u64::MAX
    } else {
        (drawn + more) as u64
    }
}

/// A source of rolls that starts from a seed. It keeps the seed and counts
/// the rolls that were drawn from it, so that a run can be told and made
/// again. Two sources with the same seed are meant to give the same rolls;
/// this rests on the generator and is not proved here.
pub struct Dice {
    rng: rand::rngs::StdRng,
    seed: u64,
    drawn: u64,
}

impl Dice {
    /// The seed that the source started from.
    pub closed spec fn spec_seed(&self) -> u64 {
        self.seed
    }

    /// Number of rolls that were drawn from the source, up to what the
    /// counter can hold.
    pub closed spec fn spec_drawn(&self) -> u64 {
        self.drawn
    }

    /// A source of rolls that starts from `seed`, with no roll drawn yet.
    pub fn seeded(seed: u64) -> (dice: Dice)
        ensures
            dice.spec_seed() == seed,
            dice.spec_drawn() == 0,
    {
        Dice { rng: rng_from_seed(seed), seed, drawn: 0 }
    }

    /// Draws a byte. This is one more roll from the same seed.
    pub fn roll_u8(&mut self) -> (roll: u8)
        ensures
            final(self).spec_seed() == old(self).spec_seed(),
            final(self).spec_drawn() == drawn_after(old(self).spec_drawn(), 1),
    {
        self.drawn = self.drawn.saturating_add(1);
        rng_u8(&mut self.rng)
    }

    /// Draws a machine word. This is one more roll from the same seed.
    pub fn roll_usize(&mut self) -> (roll: usize)
        ensures
            final(self).spec_seed() == old(self).spec_seed(),
            final(self).spec_drawn() == drawn_after(old(self).spec_drawn(), 1),
    {
        self.drawn = self.drawn.saturating_add(1);
        rng_usize(&mut self.rng)
    }

    /// Draws sixteen bytes. This is one more roll from the same seed.
    pub fn roll_u128(&mut self) -> (roll: u128)
        ensures
            final(self).spec_seed() == old(self).spec_seed(),
            final(self).spec_drawn() == drawn_after(old(self).spec_drawn(), 1),
    {
        self.drawn = self.drawn.saturating_add(1);
        rng_u128(&mut self.rng)
    }

    /// The seed that the source started from.
    #[verifier::when_used_as_spec(spec_seed)]
    pub fn seed(&self) -> (seed: u64)
        ensures
            seed == self.spec_seed(),
    {
        self.seed
    }

    /// Number of rolls that were drawn from the source.
    #[verifier::when_used_as_spec(spec_drawn)]
    pub fn drawn(&self) -> (n: u64)
        ensures
            n == self.spec_drawn(),
    {
        self.drawn
    }
}

/// Whether a roll falls under `n` per cent.
pub open spec fn spec_pct_with(roll: u8, n: u8) -> bool {
    roll % 100 < n
}

/// Decides a chance of `n` per cent by the roll that was drawn: the roll
/// is reduced to `0..100` and compared with `n`.
#[verifier::when_used_as_spec(spec_pct_with)]
pub fn pct_with(roll: u8, n: u8) -> (b: bool)
    ensures
        b == spec_pct_with(roll, n),
{
    roll % 100 < n
}

/// Draws a byte and decides a chance of `n` per cent by it. A chance of
/// nothing never comes true, one of a hundred always.
pub fn pct(n: u8) -> (b: bool)
    ensures
        exists|roll: u8| b == spec_pct_with(roll, n),
        n == 0 ==> !b,
        n >= 100 ==> b,
{
    let roll = random_u8();
    assert(pct_with(roll, n) == spec_pct_with(roll, n));
    pct_with(roll, n)
}

} // verus!
