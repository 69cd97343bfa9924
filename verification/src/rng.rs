//! The one random generator of a run: a seeded generator from the `rand`
//! crate behind bounded-draw methods, with a ghost count of how many draws
//! have been consumed. The count lets callers state exactly how much
//! randomness each step of the simulation uses.

use vstd::prelude::*;

verus! {

/// Relies on `rand::rngs::StdRng`: declared so that a value of it can be
/// held in a field; Verus sees nothing of its state.
#[verifier::external_type_specification]
#[verifier::external_body]
pub struct ExStdRng(rand::rngs::StdRng);

/// Relies on `rand::SeedableRng::seed_from_u64`: builds a generator from a
/// word-sized seed. Nothing is stated of the opaque generator state.
#[verifier::external_body]
fn seed_std_rng(seed: u64) -> rand::rngs::StdRng {
    <rand::rngs::StdRng as rand::SeedableRng>::seed_from_u64(seed)
}

/// Relies on `rand::Rng::gen_range` on the range `0..bound`: it returns a
/// value of that range and panics only when the range is empty, which the
/// precondition rules out.
#[verifier::external_body]
fn draw_raw(rng: &mut rand::rngs::StdRng, bound: u32) -> (r: u32)
    requires
        0 < bound,
    ensures
        r < bound,
{
    rand::Rng::gen_range(rng, 0..bound)
}

/// The simulation's pseudo-random generator. `draws` counts, in ghost state,
/// how many bounded draws have been taken since seeding.
pub struct SimRng {
    inner: rand::rngs::StdRng,
    draw_count: Ghost<nat>,
}

impl SimRng {
    /// How many draws this generator has handed out so far.
    pub closed spec fn draws(self) -> nat {
        self.draw_count@
    }

    /// Seeds a fresh generator; no draws are consumed yet.
    pub fn from_seed(seed: u64) -> (rng: SimRng)
        ensures
            rng.draws() == 0,
    {
        SimRng { inner: seed_std_rng(seed), draw_count: Ghost(0) }
    }

    /// One uniform draw from `[0, bound)`, consuming exactly one draw.
    pub fn draw_below(&mut self, bound: u32) -> (r: u32)
        requires
            0 < bound,
        ensures
            r < bound,
            final(self).draws() == old(self).draws() + 1,
    {
        let r: u32 = draw_raw(&mut self.inner, bound);
        self.draw_count = Ghost(self.draw_count@ + 1);
        r
    }
}

} // verus!
