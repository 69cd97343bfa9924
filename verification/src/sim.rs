//! The simulation driver: a strictly sequential loop of independent trials.
//! Each trial samples the three modules in order, feeds the same output
//! triple to both voters, and counts for each voter the trials on which it
//! recovered the true value.

use vstd::prelude::*;

use crate::model::{Outputs, Reliabilities, SCALE, TRUE_VALUE};
use crate::rng::SimRng;
use crate::sampler::sample_module;
use crate::voting::{classic_voter, lemma_perfect_first_module, map_voter};

verus! {

/// Runs `n` trials on the given generator. The counters never exceed the
/// trial count; zero trials touch nothing; each trial consumes between
/// three draws (all modules correct, majority found) and seven (all
/// modules on the error branch, three-way tie); and a perfectly reliable
/// first module makes the MAP voter succeed on every trial.
pub fn run_trials(rng: &mut SimRng, n: u64, rs: Reliabilities) -> (counts: (u64, u64))
    requires
        rs.wf(),
    ensures
        counts.0 <= n,
        counts.1 <= n,
        n == 0 ==> counts == (0u64, 0u64),
        old(rng).draws() + 3 * n <= final(rng).draws() <= old(rng).draws() + 7 * n,
        rs.r0 == SCALE ==> counts.1 == n,
{
    let mut classic_ok: u64 = 0;
    let mut map_ok: u64 = 0;
    let mut trial: u64 = 0;
    while trial < n
        invariant
            rs.wf(),
            trial <= n,
            classic_ok <= trial,
            map_ok <= trial,
            old(rng).draws() + 3 * trial <= rng.draws() <= old(rng).draws() + 7 * trial,
            rs.r0 == SCALE ==> map_ok == trial,
        decreases n - trial,
    {
        let m0: u8 = sample_module(rng, rs.r0);
        let m1: u8 = sample_module(rng, rs.r1);
        let m2: u8 = sample_module(rng, rs.r2);
        let o = Outputs { m0, m1, m2 };
        proof {
            if rs.r0 == SCALE {
                lemma_perfect_first_module(o, rs, TRUE_VALUE);
            }
        }
        if classic_voter(rng, o) == TRUE_VALUE {
            classic_ok = classic_ok + 1;
        }
        if map_voter(o, rs) == TRUE_VALUE {
            map_ok = map_ok + 1;
        }
        trial = trial + 1;
    }
    (classic_ok, map_ok)
}

/// Runs the whole simulation: seeds the generator from `seed`, runs `n`
/// trials, and returns `(classic_ok, map_ok)`. The counters never exceed
/// `n`, zero trials yield `(0, 0)`, and a perfectly reliable first module
/// yields `map_ok == n`.
pub fn run(n: u64, seed: u64, rs: Reliabilities) -> (counts: (u64, u64))
    requires
        rs.wf(),
    ensures
        counts.0 <= n,
        counts.1 <= n,
        n == 0 ==> counts == (0u64, 0u64),
        rs.r0 == SCALE ==> counts.1 == n,
{
    let mut rng = SimRng::from_seed(seed);
    run_trials(&mut rng, n, rs)
}

} // verus!
