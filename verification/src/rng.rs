//! The random source behind the `rand` constructors.

use vstd::prelude::*;

verus! {

use crate::fixed::{UNIT, TURN};

/// Relies on rand::random: one 32-bit value drawn from the thread-local
/// generator. Nothing is promised of the draw.
#[verifier::external_body]
fn random_u32() -> u32 {
    rand::random()
}

/// Draws a fixed-point channel value in `[0, UNIT]`.
pub(crate) fn rand_unit() -> (v: u32)
    ensures
        v <= UNIT,
{
    random_u32() % (UNIT + 1)
}

/// Draws a hue in `[0, TURN)`.
pub(crate) fn rand_turn() -> (h: u32)
    ensures
        h < TURN,
{
    random_u32() % TURN
}

} // verus!
