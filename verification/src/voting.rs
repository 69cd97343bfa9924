//! The two voters. The classic voter takes a plurality over the three
//! outputs and breaks a three-way tie uniformly at random. The MAP voter
//! picks the candidate value with the greatest posterior likelihood under
//! the uniform-error model, deterministically, with a strict-greater
//! running-best comparison so that the earliest tied module wins.
//!
//! Likelihoods are compared exactly: with per-mille reliabilities, the
//! likelihood of candidate `v` is the product over modules of
//! `r_i / SCALE` when module `i` reported `v` and `(SCALE - r_i) /
//! (SCALE * WRONG_COUNT)` when it did not. On the common denominator
//! `(SCALE * WRONG_COUNT)^3` this is the integer product of one `factor`
//! per module, so comparing products compares likelihoods (and products
//! equal to zero are exactly the candidates of likelihood zero, whose
//! log-likelihood would be minus infinity).

use vstd::prelude::*;

use crate::model::{Outputs, Reliabilities, SCALE, WRONG_COUNT};
use crate::rng::SimRng;

verus! {

/// The value the majority rule is bound to return, if any: the shared value
/// of an agreeing pair, pairs involving module 0 checked first.
pub open spec fn classic_majority(o: Outputs) -> Option<u8> {
    if o.m0 == o.m1 || o.m0 == o.m2 {
        Some(o.m0)
    } else if o.m1 == o.m2 {
        Some(o.m1)
    } else {
        None
    }
}

/// Module `i`'s contribution to candidate `v`'s likelihood, on the common
/// denominator: `WRONG_COUNT * r_i` when the module reported `v`, else
/// `SCALE - r_i`.
pub open spec fn factor(module_out: u8, candidate: u8, reliability: u16) -> int {
    if module_out == candidate {
        (WRONG_COUNT as int) * (reliability as int)
    } else {
        (SCALE as int) - (reliability as int)
    }
}

/// Candidate `v`'s likelihood numerator: the product of the three modules'
/// factors. Ordering candidates by this product orders them by posterior
/// likelihood.
pub open spec fn score(o: Outputs, rs: Reliabilities, candidate: u8) -> int {
    factor(o.m0, candidate, rs.r0) * factor(o.m1, candidate, rs.r1) * factor(
        o.m2,
        candidate,
        rs.r2,
    )
}

/// The value the MAP voter returns: the running best over the candidates
/// `m0, m1, m2` in module order, replaced only on a strictly greater score.
pub open spec fn map_winner(o: Outputs, rs: Reliabilities) -> u8 {
    let s0 = score(o, rs, o.m0);
    let s1 = score(o, rs, o.m1);
    let s2 = score(o, rs, o.m2);
    let best1 = if s1 > s0 {
        o.m1
    } else {
        o.m0
    };
    let top1 = if s1 > s0 {
        s1
    } else {
        s0
    };
    if s2 > top1 {
        o.m2
    } else {
        best1
    }
}

/// The classic voter is a pure majority function: whenever two of the three
/// outputs share a value, the majority rule settles on that shared value.
pub proof fn lemma_classic_majority_pure(o: Outputs)
    ensures
        o.m0 == o.m1 ==> classic_majority(o) == Some(o.m0),
        o.m0 == o.m2 ==> classic_majority(o) == Some(o.m0),
        o.m1 == o.m2 ==> classic_majority(o) == Some(o.m1),
        o.m0 != o.m1 && o.m0 != o.m2 && o.m1 != o.m2 ==> classic_majority(o) is None,
{
}

/// No score is negative: every factor of a well-formed reliability vector
/// is at least zero.
pub proof fn lemma_score_nonneg(o: Outputs, rs: Reliabilities, candidate: u8)
    requires
        rs.wf(),
    ensures
        score(o, rs, candidate) >= 0,
{
    let f0 = factor(o.m0, candidate, rs.r0);
    let f1 = factor(o.m1, candidate, rs.r1);
    let f2 = factor(o.m2, candidate, rs.r2);
    assert(f0 * f1 * f2 >= 0) by (nonlinear_arith)
        requires
            f0 >= 0,
            f1 >= 0,
            f2 >= 0,
    ;
}

/// The MAP voter is deterministic: two results obtained from identical
/// outputs and identical reliabilities are identical. (It also consumes no
/// randomness: `map_voter` takes no generator at all.)
pub proof fn lemma_map_voter_deterministic(
    o: Outputs,
    rs: Reliabilities,
    first: u8,
    second: u8,
)
    requires
        first == map_winner(o, rs),
        second == map_winner(o, rs),
    ensures
        first == second,
{
}

/// The MAP winner is one of the three outputs, its score is maximal among
/// the three candidates, and ties go to the lowest-indexed module: a later
/// module's candidate wins only on a strictly greater score.
pub proof fn lemma_map_winner_tie_break(o: Outputs, rs: Reliabilities)
    ensures
        map_winner(o, rs) == o.m0 || map_winner(o, rs) == o.m1 || map_winner(o, rs) == o.m2,
        score(o, rs, map_winner(o, rs)) >= score(o, rs, o.m0),
        score(o, rs, map_winner(o, rs)) >= score(o, rs, o.m1),
        score(o, rs, map_winner(o, rs)) >= score(o, rs, o.m2),
        score(o, rs, o.m0) >= score(o, rs, o.m1) && score(o, rs, o.m0) >= score(o, rs, o.m2)
            ==> map_winner(o, rs) == o.m0,
        score(o, rs, o.m1) > score(o, rs, o.m0) && score(o, rs, o.m1) >= score(o, rs, o.m2)
            ==> map_winner(o, rs) == o.m1,
        score(o, rs, o.m2) > score(o, rs, o.m0) && score(o, rs, o.m2) > score(o, rs, o.m1)
            ==> map_winner(o, rs) == o.m2,
{
}

/// With a perfectly reliable first module that reported the true value, the
/// MAP voter returns the true value: any other candidate's score carries
/// the factor `SCALE - SCALE == 0`, and on an all-zero tie the first
/// module's candidate stands.
pub proof fn lemma_perfect_first_module(o: Outputs, rs: Reliabilities, truth: u8)
    requires
        rs.wf(),
        rs.r0 == SCALE,
        o.m0 == truth,
    ensures
        map_winner(o, rs) == truth,
{
    lemma_score_nonneg(o, rs, o.m0);
    if o.m1 != truth {
        let f1 = factor(o.m1, o.m1, rs.r1);
        let f2 = factor(o.m2, o.m1, rs.r2);
        assert(factor(o.m0, o.m1, rs.r0) == 0);
        assert(score(o, rs, o.m1) == 0 * f1 * f2);
        assert(0 * f1 * f2 == 0) by (nonlinear_arith);
    }
    if o.m2 != truth {
        let f1 = factor(o.m1, o.m2, rs.r1);
        let f2 = factor(o.m2, o.m2, rs.r2);
        assert(factor(o.m0, o.m2, rs.r0) == 0);
        assert(score(o, rs, o.m2) == 0 * f1 * f2);
        assert(0 * f1 * f2 == 0) by (nonlinear_arith);
    }
}

/// Majority voting. When two outputs agree the shared value is returned and
/// no randomness is consumed; when all three differ, one of them is picked
/// with a single uniform draw.
pub fn classic_voter(rng: &mut SimRng, o: Outputs) -> (out: u8)
    ensures
        classic_majority(o) matches Some(v) ==> out == v && final(rng).draws() == old(rng).draws(),
        classic_majority(o) is None ==> (out == o.m0 || out == o.m1 || out == o.m2)
            && final(rng).draws() == old(rng).draws() + 1,
{
    if o.m0 == o.m1 || o.m0 == o.m2 {
        return o.m0;
    }
    if o.m1 == o.m2 {
        return o.m1;
    }
    let pick: u32 = rng.draw_below(3);
    if pick == 0 {
        o.m0
    } else if pick == 1 {
        o.m1
    } else {
        o.m2
    }
}

/// One module's likelihood factor for a candidate, as run by the voter.
fn factor_exec(module_out: u8, candidate: u8, reliability: u16) -> (f: u64)
    requires
        reliability <= SCALE,
    ensures
        f == factor(module_out, candidate, reliability),
        f <= (WRONG_COUNT as u64) * (SCALE as u64),
{
    proof {
        assert((WRONG_COUNT as int) * (reliability as int) <= (WRONG_COUNT as int) * (
        SCALE as int)) by (nonlinear_arith)
            requires
                reliability <= SCALE,
        ;
    }
    if module_out == candidate {
        (WRONG_COUNT as u64) * (reliability as u64)
    } else {
        (SCALE - reliability) as u64
    }
}

/// A candidate's likelihood score as run by the voter. The three factors
/// are at most `WRONG_COUNT * SCALE`, so the product fits in a `u64`.
fn score_exec(o: Outputs, rs: Reliabilities, candidate: u8) -> (s: u64)
    requires
        rs.wf(),
    ensures
        s == score(o, rs, candidate),
{
    let f0: u64 = factor_exec(o.m0, candidate, rs.r0);
    let f1: u64 = factor_exec(o.m1, candidate, rs.r1);
    let f2: u64 = factor_exec(o.m2, candidate, rs.r2);
    proof {
        let bound = (WRONG_COUNT as int) * (SCALE as int);
        assert(f0 * f1 * f2 <= bound * bound * bound && f0 * f1 <= bound * bound) by (nonlinear_arith)
            requires
                f0 <= bound,
                f1 <= bound,
                f2 <= bound,
                bound == 63000,
        ;
    }
    f0 * f1 * f2
}

/// MAP voting: returns the candidate among the three outputs with the
/// greatest posterior likelihood, keeping the earliest module's candidate
/// on ties. Purely deterministic: it takes no generator and consumes no
/// randomness.
pub fn map_voter(o: Outputs, rs: Reliabilities) -> (out: u8)
    requires
        rs.wf(),
    ensures
        out == map_winner(o, rs),
{
    let s0: u64 = score_exec(o, rs, o.m0);
    let s1: u64 = score_exec(o, rs, o.m1);
    let s2: u64 = score_exec(o, rs, o.m2);
    let best1: u8 = if s1 > s0 {
        o.m1
    } else {
        o.m0
    };
    let top1: u64 = if s1 > s0 {
        s1
    } else {
        s0
    };
    if s2 > top1 {
        o.m2
    } else {
        best1
    }
}

} // verus!
