//! Random draws. A draw is a uniformly random `u32`; an event of odds `n`
//! happens on a draw that is a multiple of `n`.
use vstd::prelude::*;

verus! {

/// Relies on `rand::random`, which draws a value from the thread-local
/// generator; nothing is known of the value drawn.
pub assume_specification<T>[ rand::random::<T> ]() -> (r: T)
    where
        rand::distributions::Standard: rand::distributions::Distribution<T>,
;

/// Whether a draw of `roll` makes an event of odds one in `odds` happen.
pub open spec fn happens(roll: u32, odds: u32) -> bool {
    roll % odds == 0
}

pub fn chance(roll: u32, odds: u32) -> (r: bool)
    requires
        odds > 0,
    ensures
        r == happens(roll, odds),
{
    roll % odds == 0
}

/// Whether a draw falls in the upper half of the range of `u32`.
pub open spec fn upper_half(roll: u32) -> bool {
    roll > u32::MAX / 2
}

/// `n` random draws.
pub fn draw(n: usize) -> (rolls: Vec<u32>)
    ensures
        rolls@.len() == n,
{
    let mut rolls: Vec<u32> = Vec::new();
    let mut i: usize = 0;
    while i < n
        invariant
            i <= n,
            rolls@.len() == i,
        decreases n - i,
    {
        rolls.push(rand::random::<u32>());
        i += 1;
    }
    rolls
}

} // verus!
