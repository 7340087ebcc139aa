//! Counters that stop at the largest number they hold.

use vstd::prelude::*;

verus! {

/// The counter `n` after `k` more are counted: their sum, or the largest
/// number a counter holds where the sum is beyond it.
pub open spec fn counted(n: u32, k: nat) -> u32 {
    if n + k > u32::MAX {
        u32::MAX
    } else {
        (n + k) as u32
    }
}

/// Counts one more.
pub fn count_up(n: u32) -> (m: u32)
    ensures
        m == counted(n, 1),
{
    if n < u32::MAX {
        n + 1
    } else {
        n
    }
}

/// Counts `k` more.
pub fn count_more(n: u32, k: usize) -> (m: u32)
    ensures
        m == counted(n, k as nat),
{
    let room: u32 = u32::MAX - n;
    if k >= room as usize {
        u32::MAX
    } else {
        n + k as u32
    }
}

} // verus!
