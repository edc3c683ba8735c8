//! Laying out overlays.

use vstd::prelude::*;

verus! {

/// The margin, in percent, on either side of an overlay that takes
/// `percent` percent of the screen: half of what is left, rounded down, and
/// none where the overlay takes all of it or more.
pub fn margin_percent(percent: u16) -> (margin: u16)
    ensures
        margin == if percent >= 100 {
            0
        } else {
            (100 - percent) / 2
        },
{
    if percent >= 100 {
        0
    } else {
        (100 - percent) / 2
    }
}

} // verus!
