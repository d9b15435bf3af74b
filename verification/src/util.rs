//! Small layout helpers shared with the presentation layer.

use vstd::prelude::*;

verus! {

/// Get the top left coordinate of a rectangle centered in another rectangle.
/// If the inner rectangle is too large in one dimension, default to 1.
pub fn get_centered_top_left(outer_dim: (u16, u16), inner_dim: (u16, u16)) -> (r: (u16, u16))
    ensures
        r.0 as int == if inner_dim.0 < outer_dim.0 {
            1 + (outer_dim.0 as int - inner_dim.0 as int) / 2
        } else {
            1int
        },
        r.1 as int == if inner_dim.1 < outer_dim.1 {
            1 + (outer_dim.1 as int - inner_dim.1 as int) / 2
        } else {
            1int
        },
{
    (
        if inner_dim.0 < outer_dim.0 {
            1 + (outer_dim.0 - inner_dim.0) / 2
        } else {
            1
        },
        if inner_dim.1 < outer_dim.1 {
            1 + (outer_dim.1 - inner_dim.1) / 2
        } else {
            1
        },
    )
}

} // verus!
