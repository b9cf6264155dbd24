//! Layout of the pins on a lane.
use vstd::prelude::*;

verus! {

/// Pins in a full triangle of `k` rows.
pub open spec fn triangle(k: nat) -> nat
    decreases k,
{
    if k == 0 {
        0
    } else {
        k + triangle((k - 1) as nat)
    }
}

/// Calculates how many rows a lane needs for `pins` pins set up as a
/// triangle: the fewest rows whose full triangle holds them all.
pub fn how_many_rows(pins: usize) -> (r: usize)
    ensures
        pins == 0 ==> r == 0,
        pins > 0 ==> r >= 1 && triangle((r - 1) as nat) < pins <= triangle(r as nat),
{
    let mut count: usize = 0;
    let mut left: usize = pins;
    while left > 0
        invariant
            count <= pins,
            left > 0 ==> left + triangle(count as nat) == pins,
            left == 0 ==> pins == 0 || (count >= 1 && triangle((count - 1) as nat) < pins
                <= triangle(count as nat)),
        decreases left,
    {
        count += 1;
        if count > left {
            left = 0;
        } else {
            left -= count;
        }
    }
    count
}

} // verus!
