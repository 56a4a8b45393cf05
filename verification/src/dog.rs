//! The lost dog that joins the player once it is found.

use vstd::prelude::*;

verus! {

/// Whether the dog still has to be found.
#[derive(Clone, Copy, Debug, PartialEq, Eq, Structural)]
pub enum DogState {
    Lost,
    Collected,
}

/// A meeting with the player: the dog's state afterwards, and whether it barks.
pub open spec fn meet(s: DogState) -> (DogState, bool) {
    (DogState::Collected, s == DogState::Lost)
}

/// The dog companion.
pub struct Dog(DogState);

impl Dog {
    /// The dog's state.
    pub closed spec fn state(&self) -> DogState {
        self.0
    }

    /// A dog waiting to be found.
    pub fn new() -> (r: Dog)
        ensures
            r.state() == DogState::Lost,
    {
        Dog(DogState::Lost)
    }

    /// Whether the dog has joined the player.
    pub fn is_collected(&self) -> (r: bool)
        ensures
            r == (self.state() == DogState::Collected),
    {
        match self.0 {
            DogState::Collected => true,
            DogState::Lost => false,
        }
    }

    /// The dog joins the player.
    pub fn collect_dog(&mut self)
        ensures
            final(self).state() == DogState::Collected,
    {
        self.0 = DogState::Collected;
    }

    /// The player came within the dog's following range: a lost dog joins and
    /// barks (the result says whether to play the bark); a dog already with
    /// the player just follows.
    pub fn meet_player(&mut self) -> (barks: bool)
        ensures
            (final(self).state(), barks) == meet(old(self).state()),
            final(self).state() == DogState::Collected,
            barks == (old(self).state() == DogState::Lost),
    {
        match self.0 {
            DogState::Lost => {
                self.collect_dog();
                true
            },
            DogState::Collected => false,
        }
    }
}

/// The dog barks at most once: after a meeting it is collected, and it
/// never barks at a later meeting.
pub proof fn lemma_dog_barks_once(s: DogState)
    ensures
        meet(s).0 == DogState::Collected,
        !meet(meet(s).0).1,
{
}

} // verus!
