//! Leaving the title menu.

use vstd::prelude::*;

verus! {

/// Pressing Enter while the menu is shown starts the game.
pub fn starts_game(enter_pressed: bool, menu_shown: bool) -> (r: bool)
    ensures
        r == (enter_pressed && menu_shown),
{
    enter_pressed && menu_shown
}

} // verus!
