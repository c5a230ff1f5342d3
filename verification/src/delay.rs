//! Randomized simulated latencies.
//!
//! A producer sleeps between 100 and 499 milliseconds before each emit; a
//! consumer sleeps between 200 and 599 milliseconds after each message it
//! processes. The draws come from the `rand` crate; only the ranges are
//! guaranteed, never the values.
use vstd::prelude::*;

verus! {

/// Relies on rand::random: a value drawn from the thread-local generator.
/// Nothing is promised of the value.
pub assume_specification<T>[ rand::random::<T> ]() -> (r: T)
    where
        rand::distributions::Standard: rand::distributions::Distribution<T>,
;

/// A randomized production latency, in milliseconds, in [100, 500).
pub fn producer_delay() -> (d: u64)
    ensures
        100 <= d < 500,
{
    let r: u64 = rand::random::<u64>();
    r % 400 + 100
}

/// A randomized processing latency, in milliseconds, in [200, 600).
pub fn consumer_delay() -> (d: u64)
    ensures
        200 <= d < 600,
{
    let r: u64 = rand::random::<u64>();
    r % 400 + 200
}

} // verus!
