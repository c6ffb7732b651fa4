//! Dice: the one place where chance enters the rules.

use rand::Rng;
use vstd::prelude::*;

verus! {

/// Draw from `lo..=hi` with `rand::Rng::gen_range` on the thread's generator.
///
/// `gen_range` panics on an empty range, which `lo <= hi` rules out, and returns a member of
/// the range. Nothing is claimed of which member comes.
#[verifier::external_body]
pub(crate) fn draw(lo: i64, hi: i64) -> (r: i64)
    requires
        lo <= hi,
    ensures
        lo <= r <= hi,
{
    rand::thread_rng().gen_range(lo..=hi)
}

/// Roll a number of `lo..=hi`.
pub fn roll(lo: i32, hi: i32) -> (r: i32)
    requires
        lo <= hi,
    ensures
        lo <= r <= hi,
{
    draw(lo as i64, hi as i64) as i32
}

/// Pick an index of a list that holds `count` entries.
pub fn pick_index(count: u32) -> (r: u32)
    requires
        count > 0,
    ensures
        r < count,
{
    draw(0, count as i64 - 1) as u32
}

} // verus!
