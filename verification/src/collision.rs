//! Which collision box a placed world object gets.

use vstd::prelude::*;

verus! {

/// The collision box of an object placed from data, as `(size, offset)`:
/// the collision size given, or the sprite's own size where none is given;
/// shifted by the collision offset where one is given, centred otherwise.
/// `V` is the host's two-dimensional vector; its values are only moved
/// around.
pub fn placement_collider<V: Copy>(
    sprite_size: V,
    collision_size: Option<V>,
    collision_offset: Option<V>,
) -> (r: (V, Option<V>))
    ensures
        r == (match (collision_size, collision_offset) {
            (Some(size), Some(offset)) => (size, Some(offset)),
            (Some(size), None) => (size, None),
            (None, Some(offset)) => (sprite_size, Some(offset)),
            (None, None) => (sprite_size, None),
        }),
{
    match (collision_size, collision_offset) {
        (Some(size), Some(offset)) => (size, Some(offset)),
        (Some(size), None) => (size, None),
        (None, Some(offset)) => (sprite_size, Some(offset)),
        (None, None) => (sprite_size, None),
    }
}

} // verus!
