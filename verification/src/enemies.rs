//! What an enemy's attack does to the player.

use vstd::prelude::*;
use crate::character_controls::{Character, StatusEffect, StatusEffects, damaged};

verus! {

/// Resolves one enemy's attack for this update.  The enemy hits when the
/// player is within its reach and its cooldown has run out; a hit costs one
/// health, marks the player as hurt and inflicts the enemy's status effect,
/// if it has one.  Returns whether it hit, in which case the caller restarts
/// the cooldown.
pub fn resolve_attack(
    in_reach: bool,
    cooldown_finished: bool,
    inflicted_status: Option<StatusEffect>,
    character: &mut Character,
    effects: &mut StatusEffects,
) -> (hit: bool)
    ensures
        hit == (in_reach && cooldown_finished),
        hit ==> *final(character) == damaged(*old(character)),
        hit ==> final(effects).effects() == (match inflicted_status {
            Some(s) => old(effects).effects().insert(s),
            None => old(effects).effects(),
        }),
        !hit ==> *final(character) == *old(character),
        !hit ==> final(effects).effects() == old(effects).effects(),
{
    if in_reach && cooldown_finished {
        character.take_damage();
        if let Some(inflicted) = inflicted_status {
            effects.add_effect(inflicted);
        }
        true
    } else {
        false
    }
}

/// The direction an enemy fleeing the light walks in, and the direction it
/// remembers: it takes the fresh direction when it decides to change course
/// or has none yet, and otherwise keeps the one it had.  `V` is the host's
/// two-dimensional vector; its values are only moved around.
pub fn flee_direction<V: Copy>(remembered: Option<V>, change_course: bool, fresh: V) -> (r: (V, Option<V>))
    ensures
        change_course ==> r == (fresh, Some(fresh)),
        !change_course && remembered is None ==> r == (fresh, Some(fresh)),
        !change_course && remembered is Some ==> r == (remembered->0, remembered),
{
    let remembered = if change_course { Some(fresh) } else { remembered };
    match remembered {
        Some(direction) => (direction, remembered),
        None => (fresh, Some(fresh)),
    }
}

} // verus!
