//! Random identifiers and ports.

use rand::Rng;
use vstd::prelude::*;

verus! {

/// `Rng::gen::<u16>` on `rand::thread_rng()`: some 16-bit number. Nothing is
/// known of which.
#[verifier::external_body]
pub(crate) fn random_u16() -> u16 {
    rand::thread_rng().gen::<u16>()
}

/// `Rng::gen_range` on `rand::thread_rng()` with the half-open range
/// `low..high`: some number within it. The crate panics on an empty range.
#[verifier::external_body]
pub(crate) fn random_in_range(low: u16, high: u16) -> (x: u16)
    requires
        low < high,
    ensures
        low <= x < high,
{
    rand::thread_rng().gen_range(low..high)
}

} // verus!
