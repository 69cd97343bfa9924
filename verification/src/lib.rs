//! Monte Carlo comparison of two voting strategies for triple-modular
//! redundancy: plain majority voting with a random tie-break, and
//! maximum-a-posteriori voting that weighs each module by its reliability.
//!
//! Module outputs live in the 6-bit value domain `[0, 63]`; the distinguished
//! true value is 27. Reliabilities are held as per-mille integers so that the
//! likelihood comparison is exact integer arithmetic.

pub mod model;
pub mod rng;
pub mod sampler;
pub mod sim;
pub mod voting;
