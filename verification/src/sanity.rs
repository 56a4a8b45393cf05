//! How the sight of a dead body affects the player.  (Sanity itself, its
//! blockers and amplifiers are measured in floating point and stay with the
//! host.)

use vstd::prelude::*;

verus! {

/// Whose body the player came across.
#[derive(Clone, Copy, Debug, PartialEq, Eq, Structural)]
pub enum Grief {
    /// The player's partner: sanity is capped harder and drains faster.
    Partner,
    /// A friend: sanity is capped.
    Friend,
    /// Someone else: only the shock.
    Stranger,
}

/// Whether the player notices a body it has not seen yet: a lit body within
/// sight, or any body the player stands on.
pub fn notices_body(in_light: bool, within_sight: bool, within_touch: bool) -> (r: bool)
    ensures
        r == ((in_light && within_sight) || within_touch),
{
    (in_light && within_sight) || within_touch
}

/// What kind of loss a body means: a partner's body counts as such even if it
/// is also a friend's.
pub fn grief_for(is_partner: bool, is_friend: bool) -> (r: Grief)
    ensures
        is_partner ==> r == Grief::Partner,
        !is_partner && is_friend ==> r == Grief::Friend,
        !is_partner && !is_friend ==> r == Grief::Stranger,
{
    if is_partner {
        Grief::Partner
    } else if is_friend {
        Grief::Friend
    } else {
        Grief::Stranger
    }
}

} // verus!
