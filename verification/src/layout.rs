//! Arithmetic of screen layouts.

use vstd::prelude::*;

verus! {

/// The shares, in percent, of the three strips that centre a strip of
/// `percent` percent: the margin before, the strip, the margin after.
pub open spec fn centered_shares(percent: u16) -> (u16, u16, u16) {
    (((100 - percent) / 2) as u16, percent, ((100 - percent) / 2) as u16)
}

/// The shares, in percent, of the three strips that centre a strip taking
/// `percent` percent of the space. Both margins get half of what is left,
/// rounded down.
pub fn centered_percentages(percent: u16) -> (shares: (u16, u16, u16))
    requires
        percent <= 100,
    ensures
        shares == centered_shares(percent),
        shares.0 == shares.2,
        shares.0 + shares.1 + shares.2 <= 100,
        shares.0 + shares.1 + shares.2 >= 99,
{
    let margin: u16 = (100 - percent) / 2;
    (margin, percent, margin)
}

/// The shares that centre a popup of `percent_x` by `percent_y` percent in
/// an area: first the vertical cut, then the horizontal cut of its middle
/// strip.
pub fn centered_rect_shares(percent_x: u16, percent_y: u16) -> (cuts: (
    (u16, u16, u16),
    (u16, u16, u16),
))
    requires
        percent_x <= 100,
        percent_y <= 100,
    ensures
        cuts.0 == centered_shares(percent_y),
        cuts.1 == centered_shares(percent_x),
{
    (centered_percentages(percent_y), centered_percentages(percent_x))
}

} // verus!
