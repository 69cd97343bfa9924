//! One simulated module reading: correct with the module's probability,
//! otherwise uniform over the 63 wrong values.

use vstd::prelude::*;

use crate::model::{SCALE, TRUE_VALUE, VALUE_COUNT, WRONG_COUNT};
use crate::rng::SimRng;

verus! {

/// The wrong value reported for error index `idx` in `[0, WRONG_COUNT)`:
/// indices at or above `TRUE_VALUE` are shifted up by one, so the map
/// skips the true value and covers the other 63 values exactly once.
pub open spec fn wrong_value(idx: u8) -> u8
    recommends
        idx < WRONG_COUNT,
{
    if idx >= TRUE_VALUE {
        (idx + 1) as u8
    } else {
        idx
    }
}

/// The error index whose shifted value is the wrong value `v`: the inverse
/// of `wrong_value` on the value domain with the true value taken out.
pub open spec fn wrong_index(v: u8) -> u8
    recommends
        v < VALUE_COUNT && v != TRUE_VALUE,
{
    if v > TRUE_VALUE {
        (v - 1) as u8
    } else {
        v
    }
}

/// The error branch reaches every wrong value and only wrong values:
/// `wrong_value` is a bijection from `[0, WRONG_COUNT)` onto the value
/// domain with the true value taken out, with inverse `wrong_index`.
pub proof fn lemma_wrong_value_bijective()
    ensures
        forall|idx: u8|
            idx < WRONG_COUNT ==> #[trigger] wrong_value(idx) < VALUE_COUNT && wrong_value(idx)
                != TRUE_VALUE,
        forall|idx: u8| idx < WRONG_COUNT ==> wrong_index(#[trigger] wrong_value(idx)) == idx,
        forall|v: u8|
            v < VALUE_COUNT && v != TRUE_VALUE ==> #[trigger] wrong_index(v) < WRONG_COUNT
                && wrong_value(wrong_index(v)) == v,
{
}

/// Draws one module output. With probability `reliability / SCALE` the true
/// value comes back after a single draw; otherwise a second draw picks one
/// of the 63 wrong values, so the error branch never reports the true value.
pub fn sample_module(rng: &mut SimRng, reliability: u16) -> (out: u8)
    requires
        reliability <= SCALE,
    ensures
        out < VALUE_COUNT,
        reliability == SCALE ==> out == TRUE_VALUE,
        reliability == 0 ==> out != TRUE_VALUE,
        out == TRUE_VALUE ==> final(rng).draws() == old(rng).draws() + 1,
        out != TRUE_VALUE ==> final(rng).draws() == old(rng).draws() + 2,
{
    let coin: u32 = rng.draw_below(SCALE as u32);
    if coin < reliability as u32 {
        TRUE_VALUE
    } else {
        let idx: u8 = rng.draw_below(WRONG_COUNT as u32) as u8;
        if idx >= TRUE_VALUE {
            idx + 1
        } else {
            idx
        }
    }
}

} // verus!
