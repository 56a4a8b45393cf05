//! The player character: health, hurt flag, status effects, walking state
//! and the direction read from the movement keys.

use vstd::prelude::*;
use bevy::platform::collections::HashSet;

verus! {

/// Health the player starts with, and the most it can be healed to.
pub const STARTING_HEALTH: i8 = 3;

// ---------------------------------------------------------------------------
// Health
// ---------------------------------------------------------------------------

/// The player's health and whether it was hurt since the hurt sound last played.
#[derive(Clone, Copy, Debug, PartialEq, Eq, Structural)]
pub struct Character {
    pub health: i8,
    pub is_hurt: bool,
}

/// Health stays within what the game can show: none up to the starting health.
pub open spec fn health_in_range(c: Character) -> bool {
    0 <= c.health <= STARTING_HEALTH
}

/// The character after one hit: one health less (never below zero), and hurt.
pub open spec fn damaged(c: Character) -> Character {
    Character {
        health: if c.health > 0 { (c.health - 1) as i8 } else { c.health },
        is_hurt: true,
    }
}

/// The character after one heal: one health more, up to the starting health.
pub open spec fn healed(c: Character) -> Character {
    Character {
        health: if c.health < STARTING_HEALTH { (c.health + 1) as i8 } else { c.health },
        is_hurt: c.is_hurt,
    }
}

impl Character {
    /// A fresh character: full health, not hurt.
    pub fn new() -> (r: Character)
        ensures
            r.health == STARTING_HEALTH,
            !r.is_hurt,
    {
        Character { health: STARTING_HEALTH, is_hurt: false }
    }

    /// Takes one point of damage (health does not go below zero) and marks
    /// the character as hurt.
    pub fn take_damage(&mut self)
        ensures
            *final(self) == damaged(*old(self)),
            final(self).is_hurt,
            old(self).health > 0 ==> final(self).health == old(self).health - 1,
            old(self).health <= 0 ==> final(self).health == old(self).health,
    {
        if self.health > 0 {
            self.health -= 1;
        }
        self.is_hurt = true;
    }

    /// Heals one point, up to the starting health.
    pub fn heal(&mut self)
        ensures
            *final(self) == healed(*old(self)),
            final(self).is_hurt == old(self).is_hurt,
            old(self).health < STARTING_HEALTH ==> final(self).health == old(self).health + 1,
            old(self).health >= STARTING_HEALTH ==> final(self).health == old(self).health,
    {
        if self.health < STARTING_HEALTH {
            self.health += 1;
        }
    }

    /// Whether the hurt sound is due; it clears the flag when it is.
    pub fn consume_hurt(&mut self) -> (r: bool)
        ensures
            r == old(self).is_hurt,
            !final(self).is_hurt,
            final(self).health == old(self).health,
    {
        let was = self.is_hurt;
        self.is_hurt = false;
        was
    }
}

/// Every hit marks the character hurt, whatever its health (the last point
/// included), and costs exactly one health while any is left; healing never
/// touches the hurt mark and adds exactly one health below the maximum.
pub proof fn lemma_hit_and_heal_effects(c: Character)
    ensures
        damaged(c).is_hurt,
        c.health > 0 ==> damaged(c).health == c.health - 1,
        c.health <= 0 ==> damaged(c).health == c.health,
        healed(c).is_hurt == c.is_hurt,
        c.health < STARTING_HEALTH ==> healed(c).health == c.health + 1,
        c.health >= STARTING_HEALTH ==> healed(c).health == c.health,
{
}

/// Neither taking damage nor healing moves health out of its range.
pub proof fn lemma_health_stays_in_range(c: Character)
    requires
        health_in_range(c),
    ensures
        health_in_range(damaged(c)),
        health_in_range(healed(c)),
{
}

/// Healing right after a hit restores the health the character had, as long
/// as it had any left to lose.
pub proof fn lemma_heal_undoes_damage(c: Character)
    requires
        0 < c.health <= STARTING_HEALTH,
    ensures
        healed(damaged(c)).health == c.health,
{
}

/// Enough hits always bring health to zero, and further hits keep it there.
pub proof fn lemma_damage_reaches_zero(c: Character)
    requires
        health_in_range(c),
    ensures
        damaged(damaged(damaged(c))).health == 0,
        c.health == 0 ==> damaged(c).health == 0,
{
}

// ---------------------------------------------------------------------------
// Status effects
// ---------------------------------------------------------------------------

/// A status effect that an enemy or the world can inflict on the player.
#[derive(Clone, Copy, Debug, Hash, PartialEq, Eq, Structural)]
pub enum StatusEffect {
    Slowed,
    Stalked,
    Insane,
}

/// The status effects that the set `s` holds.
pub uninterp spec fn status_effect_set(s: HashSet<StatusEffect>) -> Set<StatusEffect>;

/// `bevy::platform::collections::HashSet::new`: an empty set.
#[verifier::external_body]
fn effect_set_new() -> (r: HashSet<StatusEffect>)
    ensures
        status_effect_set(r) == Set::<StatusEffect>::empty(),
{
    HashSet::new()
}

/// `HashSet::insert`: adds `e`; returns whether it was absent before.
#[verifier::external_body]
fn effect_set_insert(s: &mut HashSet<StatusEffect>, e: StatusEffect) -> (r: bool)
    ensures
        status_effect_set(*final(s)) == status_effect_set(*old(s)).insert(e),
        r == !status_effect_set(*old(s)).contains(e),
{
    s.insert(e)
}

/// `HashSet::remove`: takes `e` out; returns whether it was present.
#[verifier::external_body]
fn effect_set_remove(s: &mut HashSet<StatusEffect>, e: StatusEffect) -> (r: bool)
    ensures
        status_effect_set(*final(s)) == status_effect_set(*old(s)).remove(e),
        r == status_effect_set(*old(s)).contains(e),
{
    s.remove(&e)
}

/// `HashSet::contains`: whether `e` is in the set.
#[verifier::external_body]
fn effect_set_contains(s: &HashSet<StatusEffect>, e: StatusEffect) -> (r: bool)
    ensures
        r == status_effect_set(*s).contains(e),
{
    s.contains(&e)
}

/// `HashSet::iter`, copied into a `Vec`: each element of the set exactly once,
/// in an order that the contract leaves open.
#[verifier::external_body]
fn effect_set_iter(s: &HashSet<StatusEffect>) -> (r: Vec<StatusEffect>)
    ensures
        r@.no_duplicates(),
        r@.to_set() == status_effect_set(*s),
{
    s.iter().copied().collect()
}

/// The set of status effects currently applied to the player.
pub struct StatusEffects(pub HashSet<StatusEffect>);

impl StatusEffects {
    /// The effects applied.
    pub closed spec fn effects(&self) -> Set<StatusEffect> {
        status_effect_set(self.0)
    }

    /// No status effect.
    pub fn new() -> (r: StatusEffects)
        ensures
            r.effects() == Set::<StatusEffect>::empty(),
    {
        StatusEffects(effect_set_new())
    }

    /// Applies `status_effect` (applying it twice is the same as once).
    pub fn add_effect(&mut self, status_effect: StatusEffect)
        ensures
            final(self).effects() == old(self).effects().insert(status_effect),
    {
        effect_set_insert(&mut self.0, status_effect);
    }

    /// Lifts `status_effect`, if it was applied.
    pub fn remove_effect(&mut self, status_effect: StatusEffect)
        ensures
            final(self).effects() == old(self).effects().remove(status_effect),
    {
        effect_set_remove(&mut self.0, status_effect);
    }

    /// Whether `status_effect` is applied.
    pub fn has_effect(&self, status_effect: StatusEffect) -> (r: bool)
        ensures
            r == self.effects().contains(status_effect),
    {
        effect_set_contains(&self.0, status_effect)
    }

    /// Whether the player moves at the slowed speed.
    pub fn is_slowed(&self) -> (r: bool)
        ensures
            r == self.effects().contains(StatusEffect::Slowed),
    {
        self.has_effect(StatusEffect::Slowed)
    }

    /// Every applied effect once, in no particular order.
    pub fn iter(&self) -> (r: Vec<StatusEffect>)
        ensures
            r@.no_duplicates(),
            r@.to_set() == self.effects(),
    {
        effect_set_iter(&self.0)
    }
}

/// Lifting an effect right after applying it leaves the player as if the
/// effect had only been lifted; the other effects are untouched.
pub proof fn lemma_remove_undoes_add(s: Set<StatusEffect>, e: StatusEffect)
    ensures
        s.insert(e).remove(e) == s.remove(e),
        !s.contains(e) ==> s.insert(e).remove(e) == s,
        forall|f: StatusEffect| f != e ==> (s.insert(e).contains(f) <==> s.contains(f)),
{
    assert(s.insert(e).remove(e) =~= s.remove(e));
    if !s.contains(e) {
        assert(s.insert(e).remove(e) =~= s);
    }
}

/// Applying an effect twice is the same as applying it once.
pub proof fn lemma_add_idempotent(s: Set<StatusEffect>, e: StatusEffect)
    ensures
        s.insert(e).insert(e) == s.insert(e),
        s.insert(e).contains(e),
{
    assert(s.insert(e).insert(e) =~= s.insert(e));
}

// ---------------------------------------------------------------------------
// Movement keys and walking
// ---------------------------------------------------------------------------

/// One axis of the key direction: -1, 0 or +1.
pub open spec fn axis(negative: bool, positive: bool) -> int {
    (if positive { 1int } else { 0int }) - (if negative { 1int } else { 0int })
}

/// The direction the held keys point to, as `(x, y)` with each coordinate in
/// {-1, 0, 1}: left and right cancel out, so do up and down.
pub fn input_direction(left: bool, right: bool, up: bool, down: bool) -> (r: (i8, i8))
    ensures
        r.0 == axis(left, right),
        r.1 == axis(down, up),
{
    let mut x: i8 = 0;
    let mut y: i8 = 0;
    if left {
        x -= 1;
    }
    if right {
        x += 1;
    }
    if up {
        y += 1;
    }
    if down {
        y -= 1;
    }
    (x, y)
}

/// Whether the player is walking or standing still.
#[derive(Clone, Copy, Debug, PartialEq, Eq, Structural)]
pub enum WalkState {
    Walking,
    Stopped,
}

/// What the walking sound has to do after a movement update.
#[derive(Clone, Copy, Debug, PartialEq, Eq, Structural)]
pub enum WalkSound {
    /// Start the looping footsteps.
    Start,
    /// Stop the footsteps, if they play.
    Stop,
    /// Leave the sound as it is.
    Keep,
}

/// The walking state after a movement update in which the player did or did
/// not press a direction, and what to do with the footsteps.
pub open spec fn walk_next(state: WalkState, moving: bool) -> (WalkState, WalkSound) {
    if moving && state == WalkState::Stopped {
        (WalkState::Walking, WalkSound::Start)
    } else if !moving {
        (WalkState::Stopped, WalkSound::Stop)
    } else {
        (state, WalkSound::Keep)
    }
}

/// Advances the walking state by one movement update: a still player that
/// moves starts walking and the footsteps start; a player that does not move
/// stops and the footsteps stop; a walking player that keeps moving changes
/// nothing.
pub fn walk_step(state: WalkState, moving: bool) -> (r: (WalkState, WalkSound))
    ensures
        r == walk_next(state, moving),
        moving && state == WalkState::Stopped ==> r == (WalkState::Walking, WalkSound::Start),
        moving && state == WalkState::Walking ==> r == (WalkState::Walking, WalkSound::Keep),
        !moving ==> r == (WalkState::Stopped, WalkSound::Stop),
{
    if moving && state == WalkState::Stopped {
        (WalkState::Walking, WalkSound::Start)
    } else if !moving {
        (WalkState::Stopped, WalkSound::Stop)
    } else {
        (state, WalkSound::Keep)
    }
}

/// After any update the player walks exactly when it moved, and while a
/// direction stays held the footsteps are started at most once: the update
/// that follows a moving update never starts them again.
pub proof fn lemma_footsteps_start_once(state: WalkState, moving: bool)
    ensures
        (walk_next(state, moving).0 == WalkState::Walking) == moving,
        walk_next(walk_next(state, true).0, true).1 == WalkSound::Keep,
        walk_next(state, moving).1 == WalkSound::Start ==> state == WalkState::Stopped,
{
}

} // verus!
