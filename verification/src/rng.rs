//! The single point where the simulation draws randomness: spawn-side,
//! spawn height and speed sampling all go through one trusted wrapper over
//! the window library's pseudo-random generator.

use vstd::prelude::*;

verus! {

/// Upper limit on the values handed to the random wrapper. Far below 2^53,
/// so every integer the generator's internal f64 arithmetic touches is
/// exactly representable.
pub const RAND_BOUND: i64 = 1_000_000_000_000;

/// Relies on macroquad::rand::gen_range (quad-rand): for an integer type it
/// computes `low + (high - low) * r` in f64, with `r` drawn uniformly in
/// [0, 1) in steps of 2^-32, and truncates back to the integer type.
///
/// The result can only reach `high` if rounding eats the gap `(high - low)
/// * 2^-32` below it, which needs that gap to be smaller than about half an
/// ulp of `high` (about `high * 2^-53`). The precondition keeps the range
/// at least 1/1024 of `high`, so the gap exceeds `high * 2^-42` and the
/// largest possible draw stays strictly below `high`; the lower bound holds
/// because the offset is non-negative and rounding is monotone. Nothing
/// more is promised of the draw.
#[verifier::external_body]
pub(crate) fn gen_range_i64(low: i64, high: i64) -> (r: i64)
    requires
        0 <= low < high <= RAND_BOUND,
        (high - low) * 1024 >= high,
    ensures
        low <= r < high,
{
    macroquad::rand::gen_range(low, high)
}

} // verus!
