//! What the heads-up display shows for the player's state.

use vstd::prelude::*;
use crate::character_controls::{Character, StatusEffect};

verus! {

/// The icon image shown for a status effect.
pub fn status_icon(effect: StatusEffect) -> (r: &'static str)
    ensures
        effect == StatusEffect::Slowed ==> r@ == "cripple_icon.png"@,
        effect == StatusEffect::Stalked ==> r@ == "insanity_icon.png"@,
        effect == StatusEffect::Insane ==> r@ == "insanity_icon.png"@,
{
    match effect {
        StatusEffect::Slowed => "cripple_icon.png",
        StatusEffect::Stalked => "insanity_icon.png",
        StatusEffect::Insane => "insanity_icon.png",
    }
}

/// Whether the player has just died: no health left and not yet marked dead.
pub fn newly_dead(character: &Character, already_dead: bool) -> (r: bool)
    ensures
        r == (character.health == 0 && !already_dead),
{
    character.health == 0 && !already_dead
}

} // verus!
