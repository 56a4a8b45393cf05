//! Bevy's platform collection types, made known to the verifier.  Both are
//! opaque: what a set holds is named per element type where it is used.

use vstd::prelude::*;
use bevy::platform::collections::HashSet;
use bevy::platform::hash::FixedHasher;

verus! {

/// `bevy::platform::collections::HashSet`, a hash set with a fixed hasher.
#[verifier::external_type_specification]
#[verifier::external_body]
#[verifier::reject_recursive_types(T)]
#[verifier::reject_recursive_types(S)]
pub struct ExBevyHashSet<T, S>(HashSet<T, S>);

/// `bevy::platform::hash::FixedHasher`, the set's default hasher.
#[verifier::external_type_specification]
#[verifier::external_body]
pub struct ExFixedHasher(FixedHasher);

} // verus!
