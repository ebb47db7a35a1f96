//! The simulation's only source of chance, behind one trusted call.

use vstd::prelude::*;

verus! {

/// Relies on macroquad::rand::rand (re-exported from quad_rand): one step of
/// the process-global PCG generator.  Nothing is promised of the value; every
/// caller must cope with any `u32`.
#[verifier::external_body]
pub(crate) fn random_u32() -> u32 {
    macroquad::rand::rand()
}

/// A pseudo-random value in `[low, high)`, reduced from one raw draw.
pub fn rand_in(low: u32, high: u32) -> (r: u32)
    requires
        low < high,
    ensures
        low <= r < high,
{
    let raw = random_u32();
    low + raw % (high - low)
}

} // verus!
