//! The integer decisions of the tween engine. The easing curves and the
//! tween arithmetic are floating point and are not part of this library.
use vstd::prelude::*;

verus! {

/// Twice the distance of item `index` from the centre of `total` items laid
/// out in a row: `|2 * index - (total - 1)|`, and 0 when there is at most one item.
pub open spec fn spec_stagger_half_steps(index: int, total: int) -> int {
    if total <= 1 {
        0
    } else if 2 * index >= total - 1 {
        2 * index - (total - 1)
    } else {
        (total - 1) - 2 * index
    }
}

/// The stagger of item `index` among `total` items, in half steps: the delay
/// of `stagger_from_center` is this number times `step / 2`.
pub fn stagger_half_steps(index: usize, total: usize) -> (r: u128)
    ensures
        r == spec_stagger_half_steps(index as int, total as int),
{
    if total <= 1 {
        return 0;
    }
    let twice = 2 * (index as u128);
    let last = (total - 1) as u128;
    if twice >= last {
        twice - last
    } else {
        last - twice
    }
}

/// A tween runs backwards in loop `loop_count` when it alternates and the
/// count is odd and not negative.
pub open spec fn spec_plays_reversed(alternate: bool, loop_count: int) -> bool {
    alternate && loop_count >= 0 && loop_count % 2 == 1
}

/// Whether a tween in loop `loop_count` runs backwards: it alternates and
/// `loop_count % 2 == 1` with Rust's remainder, which is 1 only for odd
/// non-negative counts.
pub fn plays_reversed(alternate: bool, loop_count: i32) -> (r: bool)
    ensures
        r == spec_plays_reversed(alternate, loop_count as int),
{
    alternate && loop_count % 2 == 1
}

} // verus!
