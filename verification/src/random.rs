//! Randomness and the wall clock, as this crate draws on them.
use vstd::prelude::*;
use rand::Rng;

verus! {

/// Calls `rand::Rng::gen_range(0..bound)` on the thread-local generator.
/// Claimed: the value is random; of every outcome only that it lies below `bound`.
/// `gen_range` panics on an empty range, hence `bound > 0`.
#[verifier::external_body]
pub(crate) fn random_below(bound: usize) -> (r: usize)
    requires
        bound > 0,
    ensures
        r < bound,
{
    rand::thread_rng().gen_range(0..bound)
}

/// Calls `rand::random::<u16>()`. Claimed: nothing beyond its type; any value may come back.
#[verifier::external_body]
pub(crate) fn random_u16() -> (r: u16) {
    rand::random::<u16>()
}

/// Calls `chrono::Utc::now().timestamp()`: the current Unix time in seconds.
/// Claimed: the clock may read any value that a `chrono` date can hold, whose years
/// lie within about 262 000 of 1970, so within 10^13 seconds of the epoch.
#[verifier::external_body]
pub(crate) fn now_timestamp() -> (r: i64)
    ensures
        -10_000_000_000_000 <= r <= 10_000_000_000_000,
{
    chrono::Utc::now().timestamp()
}

}
