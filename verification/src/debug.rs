//! When the debug overlay is shown: a chord of holding one key while
//! releasing another flips its visibility.

use vstd::prelude::*;

verus! {

/// Whether the debug overlay is visible after one frame of input: the
/// toggle chord (one key held while the other is released) flips it, and
/// anything else leaves it alone.
pub fn debug_menu_visibility(visible: bool, toggle_held: bool, toggle_released: bool) -> (v: bool)
    ensures
        v == if toggle_held && toggle_released {
            !visible
        } else {
            visible
        },
{
    if toggle_held && toggle_released {
        !visible
    } else {
        visible
    }
}

} // verus!
