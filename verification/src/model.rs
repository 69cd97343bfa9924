//! The value domain and the run parameters of the simulation.

use vstd::prelude::*;

verus! {

/// The distinguished value the three modules try to report.
pub const TRUE_VALUE: u8 = 27;

/// Size of the 6-bit value domain: outputs lie in `[0, VALUE_COUNT)`.
pub const VALUE_COUNT: u8 = 64;

/// Number of values a faulty module can report, `VALUE_COUNT - 1`.
pub const WRONG_COUNT: u8 = 63;

/// Denominator of a per-mille reliability: a reliability of `SCALE`
/// means the module is always correct.
pub const SCALE: u16 = 1000;

/// The per-module correctness probabilities, one per module, in per-mille.
#[derive(Clone, Copy, PartialEq, Eq, Structural, Debug)]
pub struct Reliabilities {
    pub r0: u16,
    pub r1: u16,
    pub r2: u16,
}

impl Reliabilities {
    /// Each probability is at most 1, that is at most `SCALE` per-mille.
    pub open spec fn wf(self) -> bool {
        self.r0 <= SCALE && self.r1 <= SCALE && self.r2 <= SCALE
    }

    /// Builds a reliability vector, rejecting any component above `SCALE`.
    pub fn new(r0: u16, r1: u16, r2: u16) -> (result: Option<Reliabilities>)
        ensures
            result is Some <==> r0 <= SCALE && r1 <= SCALE && r2 <= SCALE,
            result matches Some(rs) ==> rs == (Reliabilities { r0, r1, r2 }) && rs.wf(),
    {
        if r0 <= SCALE && r1 <= SCALE && r2 <= SCALE {
            Some(Reliabilities { r0, r1, r2 })
        } else {
            None
        }
    }
}

/// One trial's sampled module outputs, in module order 0, 1, 2.
#[derive(Clone, Copy, PartialEq, Eq, Structural, Debug)]
pub struct Outputs {
    pub m0: u8,
    pub m1: u8,
    pub m2: u8,
}

impl Outputs {
    /// Every output lies in the 6-bit value domain.
    pub open spec fn wf(self) -> bool {
        self.m0 < VALUE_COUNT && self.m1 < VALUE_COUNT && self.m2 < VALUE_COUNT
    }
}

} // verus!
