//! Entropy for the evaluator and the generator.
//!
//! Both draws are uniform fixed-point samples from a half-open range. A
//! fresh draw depends on the process-wide random source, so nothing more
//! than the range can be promised of it: two calls on no arguments may
//! differ.

use vstd::prelude::*;
use rand::Rng;

use crate::fixed::UNIT;

verus! {

/// One uniform fixed-point sample in `[-UNIT, UNIT)`: the scalar a `Random`
/// or `Rand` node stands for.
///
/// Relies on `rand::Rng::gen_range` over `rand::thread_rng()`: it returns a
/// value in the half-open range handed to it (`[low, high)`), and panics
/// only on an empty range, which `-UNIT..UNIT` is not.
#[verifier::external_body]
pub(crate) fn sample_scalar() -> (r: i64)
    ensures
        -UNIT <= r < UNIT,
{
    rand::thread_rng().gen_range(-UNIT..UNIT)
}

/// One uniform fixed-point sample in `[0, UNIT)`: the probability threshold
/// a production is picked against.
///
/// Relies on `rand::Rng::gen_range` over `rand::thread_rng()`: it returns a
/// value in the half-open range handed to it (`[low, high)`), and panics
/// only on an empty range, which `0..UNIT` is not.
#[verifier::external_body]
pub(crate) fn sample_threshold() -> (r: i64)
    ensures
        0 <= r < UNIT,
{
    rand::thread_rng().gen_range(0..UNIT)
}

} // verus!
