//! Labels of the clip context menu.

use vstd::prelude::*;

verus! {

/// The pin entry of a clip's context menu: `Unpin` for a pinned clip,
/// `Pin` otherwise.
pub fn pin_menu_label(is_pinned: bool) -> (s: &'static str)
    ensures
        s@ == (if is_pinned { "Unpin"@ } else { "Pin"@ }),
{
    if is_pinned {
        "Unpin"
    } else {
        "Pin"
    }
}

} // verus!
