//! When an open dialog box closes.

use vstd::prelude::*;

verus! {

/// An open dialog closes when either Enter key was just pressed.
pub fn closes_dialog(dialog_open: bool, enter_pressed: bool, numpad_enter_pressed: bool) -> (r: bool)
    ensures
        r == (dialog_open && (enter_pressed || numpad_enter_pressed)),
{
    dialog_open && (enter_pressed || numpad_enter_pressed)
}

} // verus!
