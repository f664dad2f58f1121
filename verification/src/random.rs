//! Random integers in a range, drawn from the thread's random number generator.

use rand::Rng;
use vstd::prelude::*;

verus! {

/// `rand::thread_rng().gen_range(start..end)`: `gen_range` panics on an empty range and
/// otherwise returns a value that lies in it, `start` included and `end` left out. Which value
/// comes back is chance, so nothing more is stated of it; `thread_rng` seeds its generator from
/// the operating system on first use, and that seeding is not stated either.
#[verifier::external_body]
fn gen_in_range(start: i32, end: i32) -> (r: i32)
    requires
        start < end,
    ensures
        start <= r < end,
{
    rand::thread_rng().gen_range(start..end)
}

/// Returns a random integer in `start..end`.
pub fn random_rng(start: i32, end: i32) -> (r: i32)
    requires
        start < end,
    ensures
        start <= r < end,
{
    gen_in_range(start, end)
}

/// Returns a random integer between `0` and `val`: in `0..val` for a positive `val`, and in
/// `val..0` for a negative one.
pub fn random(val: i32) -> (r: i32)
    requires
        val != 0,
    ensures
        val > 0 ==> 0 <= r < val,
        val < 0 ==> val <= r < 0,
{
    if val > 0 {
        gen_in_range(0, val)
    } else {
        gen_in_range(val, 0)
    }
}

} // verus!
