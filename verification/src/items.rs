//! Items lying around the map, the set the player has collected, and the
//! beacon parts among them.

use vstd::prelude::*;
use bevy::platform::collections::HashSet;
use crate::character_controls::{Character, StatusEffect, StatusEffects, healed};

verus! {

/// Number of beacon parts needed to send the rescue signal.
pub const BEACON_PARTS_NEEDED: u32 = 3;

/// Something the player can pick up.
#[derive(Clone, Copy, Debug, Hash, PartialEq, Eq, Structural)]
pub enum Item {
    Antenna,
    Chip,
    Plate,
    Flower,
    MedPack,
    Flashlight,
}

/// The antenna, the chip and the plate make up the beacon.
pub open spec fn is_beacon_part(i: Item) -> bool {
    i == Item::Antenna || i == Item::Chip || i == Item::Plate
}

/// How many distinct beacon parts the set `s` holds.
pub open spec fn beacon_count(s: Set<Item>) -> int {
    (if s.contains(Item::Antenna) { 1int } else { 0int })
        + (if s.contains(Item::Chip) { 1int } else { 0int })
        + (if s.contains(Item::Plate) { 1int } else { 0int })
}

/// How many entries of `v` are beacon parts.
pub open spec fn parts_in(v: Seq<Item>) -> int
    decreases v.len(),
{
    if v.len() == 0 {
        0
    } else {
        parts_in(v.drop_last()) + (if is_beacon_part(v.last()) { 1int } else { 0int })
    }
}

/// The items that the set `s` holds.
pub uninterp spec fn item_set(s: HashSet<Item>) -> Set<Item>;

/// `bevy::platform::collections::HashSet::new`: an empty set.
#[verifier::external_body]
fn item_set_new() -> (r: HashSet<Item>)
    ensures
        item_set(r) == Set::<Item>::empty(),
{
    HashSet::new()
}

/// `HashSet::insert`: adds `i`; returns whether it was absent before.
#[verifier::external_body]
fn item_set_insert(s: &mut HashSet<Item>, i: Item) -> (r: bool)
    ensures
        item_set(*final(s)) == item_set(*old(s)).insert(i),
        r == !item_set(*old(s)).contains(i),
{
    s.insert(i)
}

/// `HashSet::get`, with the found element copied out: it finds an element
/// exactly when `i` is in the set, and what it finds is equal to `i`.
#[verifier::external_body]
fn item_set_get(s: &HashSet<Item>, i: Item) -> (r: Option<Item>)
    ensures
        r is Some <==> item_set(*s).contains(i),
        r matches Some(x) ==> x == i,
{
    s.get(&i).copied()
}

/// `HashSet::iter`, copied into a `Vec`: each element of the set exactly once,
/// in an order that the contract leaves open.
#[verifier::external_body]
fn item_set_iter(s: &HashSet<Item>) -> (r: Vec<Item>)
    ensures
        r@.no_duplicates(),
        r@.to_set() == item_set(*s),
{
    s.iter().copied().collect()
}

/// An item lying on the map, waiting to be picked up.
pub struct CollectableItem(Item);

impl CollectableItem {
    pub fn new(item: Item) -> (r: CollectableItem)
        ensures
            r.item() == item,
    {
        CollectableItem(item)
    }

    pub closed spec fn item(&self) -> Item {
        self.0
    }

    /// The item that lies there.
    pub fn get(&self) -> (r: Item)
        ensures
            r == self.item(),
    {
        self.0
    }
}

/// The items the player has picked up.
pub struct CollectedItems(pub HashSet<Item>);

impl CollectedItems {
    /// The items collected.
    pub closed spec fn items(&self) -> Set<Item> {
        item_set(self.0)
    }

    /// Nothing collected yet.
    pub fn new() -> (r: CollectedItems)
        ensures
            r.items() == Set::<Item>::empty(),
    {
        CollectedItems(item_set_new())
    }

    /// Adds `item` to the collection (collecting it again changes nothing).
    pub fn collect_item(&mut self, item: Item)
        ensures
            final(self).items() == old(self).items().insert(item),
    {
        item_set_insert(&mut self.0, item);
    }

    /// Looks `item` up; the lookup's answer is not kept and the collection
    /// does not change.
    pub fn get_item(&mut self, item: Item)
        ensures
            final(self).items() == old(self).items(),
    {
        let _found = item_set_get(&self.0, item);
    }

    /// Whether `item` has been collected.
    pub fn has_item(&self, item: Item) -> (r: bool)
        ensures
            r == self.items().contains(item),
    {
        match item_set_get(&self.0, item) {
            Some(_) => true,
            None => false,
        }
    }

    /// Every collected item once, in no particular order.
    pub fn iter(&self) -> (r: Vec<Item>)
        ensures
            r@.no_duplicates(),
            r@.to_set() == self.items(),
    {
        item_set_iter(&self.0)
    }

    /// How many of the beacon's parts have been collected.
    pub fn beacon_parts(&self) -> (r: u32)
        ensures
            r == beacon_count(self.items()),
            r <= BEACON_PARTS_NEEDED,
    {
        let v = self.iter();
        let mut count: u32 = 0;
        let mut i: usize = 0;
        while i < v.len()
            invariant
                0 <= i <= v.len(),
                v@.no_duplicates(),
                count == parts_in(v@.take(i as int)),
            decreases v.len() - i,
        {
            assert(v@.take(i as int + 1).drop_last() =~= v@.take(i as int));
            proof {
                let t = v@.take(i as int + 1);
                assert(t.no_duplicates()) by {
                    assert forall|a: int, b: int| 0 <= a < t.len() && 0 <= b < t.len() && a != b
                        implies t[a] != t[b] by {
                        assert(t[a] == v@[a] && t[b] == v@[b]);
                    }
                }
                lemma_parts_in_distinct(t);
            }
            let it = v[i];
            if it == Item::Antenna || it == Item::Chip || it == Item::Plate {
                count = count + 1;
            }
            i = i + 1;
        }
        assert(v@.take(v.len() as int) =~= v@);
        proof {
            lemma_parts_in_distinct(v@);
        }
        count
    }
}

/// In a list without repeats, counting the parts gives the number of distinct
/// parts it contains.
proof fn lemma_parts_in_distinct(v: Seq<Item>)
    requires
        v.no_duplicates(),
    ensures
        parts_in(v) == beacon_count(v.to_set()),
    decreases v.len(),
{
    if v.len() == 0 {
        assert(!v.to_set().contains(Item::Antenna));
        assert(!v.to_set().contains(Item::Chip));
        assert(!v.to_set().contains(Item::Plate));
    } else {
        let w = v.drop_last();
        let x = v.last();
        assert(w.no_duplicates());
        lemma_parts_in_distinct(w);
        assert(!w.contains(x)) by {
            if w.contains(x) {
                let j = choose|j: int| 0 <= j < w.len() && w[j] == x;
                assert(v[j] == v[v.len() - 1]);
            }
        }
        assert forall|y: Item| y != x implies (v.contains(y) <==> w.contains(y)) by {
            if v.contains(y) {
                let j = choose|j: int| 0 <= j < v.len() && v[j] == y;
                assert(w[j] == y);
            }
            if w.contains(y) {
                let j = choose|j: int| 0 <= j < w.len() && w[j] == y;
                assert(v[j] == y);
            }
        }
        assert(v.contains(x)) by {
            assert(v[v.len() - 1] == x);
        }
        assert(v.to_set().contains(Item::Antenna) == v.contains(Item::Antenna));
        assert(v.to_set().contains(Item::Chip) == v.contains(Item::Chip));
        assert(v.to_set().contains(Item::Plate) == v.contains(Item::Plate));
        assert(w.to_set().contains(Item::Antenna) == w.contains(Item::Antenna));
        assert(w.to_set().contains(Item::Chip) == w.contains(Item::Chip));
        assert(w.to_set().contains(Item::Plate) == w.contains(Item::Plate));
    }
}

/// Applies what picking `item` up does to the player: the item joins the
/// collection; a med pack heals one point and cures the slowdown.  Returns
/// whether the item raises sanity (the flower does), which the caller applies.
pub fn pick_up(
    item: Item,
    collected: &mut CollectedItems,
    character: &mut Character,
    effects: &mut StatusEffects,
) -> (raises_sanity: bool)
    ensures
        final(collected).items() == old(collected).items().insert(item),
        item == Item::MedPack ==> *final(character) == healed(*old(character)),
        item == Item::MedPack ==> final(effects).effects() == old(effects).effects().remove(StatusEffect::Slowed),
        item != Item::MedPack ==> *final(character) == *old(character),
        item != Item::MedPack ==> final(effects).effects() == old(effects).effects(),
        raises_sanity == (item == Item::Flower),
{
    collected.collect_item(item);
    match item {
        Item::Flower => true,
        Item::MedPack => {
            character.heal();
            effects.remove_effect(StatusEffect::Slowed);
            false
        },
        _ => false,
    }
}

/// Collecting an item again changes nothing, and the beacon count only grows
/// when a part not held before is collected, by exactly one.
pub proof fn lemma_collect_counts_new_parts(s: Set<Item>, i: Item)
    ensures
        s.insert(i).insert(i) == s.insert(i),
        beacon_count(s.insert(i)) == beacon_count(s) + (if is_beacon_part(i) && !s.contains(i) { 1int } else { 0int }),
        0 <= beacon_count(s) <= BEACON_PARTS_NEEDED,
{
    assert(s.insert(i).insert(i) =~= s.insert(i));
}

/// The beacon is complete exactly when all three parts are in the collection.
pub proof fn lemma_beacon_complete(s: Set<Item>)
    ensures
        beacon_count(s) == BEACON_PARTS_NEEDED
            <==> (s.contains(Item::Antenna) && s.contains(Item::Chip) && s.contains(Item::Plate)),
{
}

} // verus!
