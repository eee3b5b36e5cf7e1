//! Trusted bridges to the process's random-number generator. Nothing can
//! be promised about which value comes back, only its range; every function
//! that uses one states what holds of any outcome.

use vstd::prelude::*;

verus! {

/// Relies on rand::Rng::gen_range over the thread-local generator: returns
/// a uniformly distributed index below `n`; the range must not be empty.
#[verifier::external_body]
pub fn pick_index(n: usize) -> (r: usize)
    requires
        n > 0,
    ensures
        r < n,
{
    rand::Rng::gen_range(&mut rand::thread_rng(), 0..n)
}

/// Relies on rand::Rng::gen_range over the thread-local generator: returns
/// a uniformly distributed face of a die with the given number of sides;
/// there must be at least one.
#[verifier::external_body]
pub fn roll_die(sides: u8) -> (r: u8)
    requires
        sides >= 1,
    ensures
        1 <= r <= sides,
{
    rand::Rng::gen_range(&mut rand::thread_rng(), 1..=sides)
}

/// Relies on rand::Rng::gen_ratio over the thread-local generator: returns
/// true with probability `numerator / denominator`; the ratio must be a
/// probability.
#[verifier::external_body]
pub fn random_ratio(numerator: u32, denominator: u32) -> (r: bool)
    requires
        0 < denominator,
        numerator <= denominator,
{
    rand::Rng::gen_ratio(&mut rand::thread_rng(), numerator, denominator)
}

} // verus!
