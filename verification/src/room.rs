//! Size of the visible room.

use vstd::prelude::*;

verus! {

/// Height of the room's view, in pixels.
pub const ROOM_HEIGHT: u32 = 700;

/// Width of the room's view, in pixels.
pub const ROOM_WIDTH: u32 = 1100;

} // verus!
