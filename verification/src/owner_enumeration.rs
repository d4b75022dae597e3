//! The enumeration of each owner's kitties.
//!
//! Every owner has a dense array of the kitties held, numbered from slot 0.
//! A kitty that arrives is put behind the last one. A kitty that leaves
//! gives its slot to the kitty in the last slot, so the array stays dense
//! whatever its length.

use std::collections::HashMap;
use vstd::prelude::*;

use crate::types::{AccountId, Error, KittyId};

verus! {

/// The key under which slot `slot` of `owner` is stored: the owner in the
/// upper 64 bits, the slot in the lower.
pub open spec fn spec_slot_key(owner: AccountId, slot: u64) -> u128 {
    (owner * 0x1_0000_0000_0000_0000 + slot) as u128
}

/// Computes the key of slot `slot` of `owner`.
#[verifier::when_used_as_spec(spec_slot_key)]
pub fn slot_key(owner: AccountId, slot: u64) -> (key: u128)
    ensures
        key == spec_slot_key(owner, slot),
{
    let upper: u128 = owner as u128;
    let lower: u128 = slot as u128;
    upper * 0x1_0000_0000_0000_0000u128 + lower
}

/// Different slots have different keys.
pub proof fn lemma_slot_key_injective(o1: AccountId, s1: u64, o2: AccountId, s2: u64)
    ensures
        spec_slot_key(o1, s1) == spec_slot_key(o2, s2) <==> o1 == o2 && s1 == s2,
{
}

/// The slots of all owners, read off the stored keys.
pub open spec fn slots_of(packed: Map<u128, KittyId>) -> Map<(AccountId, u64), KittyId> {
    Map::new(
        |k: (AccountId, u64)| packed.contains_key(spec_slot_key(k.0, k.1)),
        |k: (AccountId, u64)| packed[spec_slot_key(k.0, k.1)],
    )
}

proof fn lemma_slots_of_insert(packed: Map<u128, KittyId>, owner: AccountId, slot: u64, id: KittyId)
    ensures
        slots_of(packed.insert(spec_slot_key(owner, slot), id)) == slots_of(packed).insert(
            (owner, slot),
            id,
        ),
{
    let left = slots_of(packed.insert(spec_slot_key(owner, slot), id));
    let right = slots_of(packed).insert((owner, slot), id);
    assert forall|k: (AccountId, u64)| left.contains_key(k) == right.contains_key(k) && (
    left.contains_key(k) ==> left[k] == right[k]) by {
        lemma_slot_key_injective(k.0, k.1, owner, slot);
    }
    assert(left =~= right);
}

proof fn lemma_slots_of_remove(packed: Map<u128, KittyId>, owner: AccountId, slot: u64)
    ensures
        slots_of(packed.remove(spec_slot_key(owner, slot))) == slots_of(packed).remove(
            (owner, slot),
        ),
{
    let left = slots_of(packed.remove(spec_slot_key(owner, slot)));
    let right = slots_of(packed).remove((owner, slot));
    assert forall|k: (AccountId, u64)| left.contains_key(k) == right.contains_key(k) && (
    left.contains_key(k) ==> left[k] == right[k]) by {
        lemma_slot_key_injective(k.0, k.1, owner, slot);
    }
    assert(left =~= right);
}

/// The enumeration as it is stored.
#[derive(Clone, Debug, PartialEq, Eq)]
pub struct OwnedKitties {
    /// `slot_key(owner, slot)` -> kitty
    pub array: HashMap<u128, KittyId>,
    /// owner -> number of slots in use; an owner without an entry has none
    pub count: HashMap<AccountId, u64>,
    /// kitty -> its slot in the array of its owner
    pub index: HashMap<KittyId, u64>,
}

/// The enumeration as a mathematical value.
#[verifier::ext_equal]
pub struct OwnedKittiesView {
    /// (owner, slot) -> kitty
    pub array: Map<(AccountId, u64), KittyId>,
    /// owner -> number of slots in use
    pub count: Map<AccountId, u64>,
    /// kitty -> its slot in the array of its owner
    pub index: Map<KittyId, u64>,
}

impl OwnedKittiesView {
    /// Nobody holds anything.
    pub open spec fn empty() -> Self {
        OwnedKittiesView { array: Map::empty(), count: Map::empty(), index: Map::empty() }
    }

    /// How many kitties `owner` holds.
    pub open spec fn count_of(self, owner: AccountId) -> u64 {
        if self.count.contains_key(owner) {
            self.count[owner]
        } else {
            0
        }
    }

    /// The enumeration with `id` put behind the last kitty of `owner`.
    pub open spec fn append(self, owner: AccountId, id: KittyId) -> Self {
        let count = self.count_of(owner);
        OwnedKittiesView {
            array: self.array.insert((owner, count), id),
            count: self.count.insert(owner, (count + 1) as u64),
            index: self.index.insert(id, count),
        }
    }

    /// What appending gives: `CounterOverflow` where the owner's count cannot
    /// grow, else the longer enumeration.
    pub open spec fn append_outcome(self, owner: AccountId, id: KittyId) -> Result<Self, Error> {
        if self.count_of(owner) == u64::MAX {
            Err(Error::CounterOverflow)
        } else {
            Ok(self.append(owner, id))
        }
    }

    /// Whether `id` can be taken out of the array of `owner`: the owner holds
    /// something, `id` has a slot below the owner's count, and the owner's
    /// last slot is filled.
    pub open spec fn removable(self, owner: AccountId, id: KittyId) -> bool {
        &&& self.count_of(owner) > 0
        &&& self.index.contains_key(id)
        &&& self.index[id] < self.count_of(owner)
        &&& self.array.contains_key((owner, (self.count_of(owner) - 1) as u64))
    }

    /// The enumeration with `id` taken out of the array of `owner`: the kitty
    /// of the last slot moves into the slot of `id`, the last slot is
    /// cleared, and `id` loses its slot.
    pub open spec fn remove(self, owner: AccountId, id: KittyId) -> Self {
        let slot = self.index[id];
        let last = (self.count_of(owner) - 1) as u64;
        let last_id = self.array[(owner, last)];
        let array = if slot != last {
            self.array.insert((owner, slot), last_id)
        } else {
            self.array
        };
        let index = if slot != last {
            self.index.insert(last_id, slot)
        } else {
            self.index
        };
        OwnedKittiesView {
            array: array.remove((owner, last)),
            count: self.count.insert(owner, last),
            index: index.remove(id),
        }
    }

    /// Taking `id` out leaves the owner one kitty fewer, the owner's last
    /// slot empty and `id` without a slot. Unless `id` stood in the last
    /// slot, the kitty of the last slot now stands in the slot that `id`
    /// had. Every other slot, and every other owner's count, is as it was.
    pub proof fn lemma_remove_fills_the_gap(self, owner: AccountId, id: KittyId)
        requires
            self.removable(owner, id),
        ensures
            ({
                let slot = self.index[id];
                let last = (self.count_of(owner) - 1) as u64;
                let last_id = self.array[(owner, last)];
                let after = self.remove(owner, id);
                &&& after.count_of(owner) == last
                &&& !after.array.contains_key((owner, last))
                &&& !after.index.contains_key(id)
                &&& slot != last ==> after.array.contains_key((owner, slot)) && after.array[(
                    owner,
                    slot,
                )] == last_id
                &&& slot != last && last_id != id ==> after.index.contains_key(last_id)
                    && after.index[last_id] == slot
                &&& forall|k: (AccountId, u64)|
                    k != (owner, slot) && k != (owner, last) ==> (after.array.contains_key(k)
                        <==> #[trigger] self.array.contains_key(k)) && after.array[k]
                        == self.array[k]
                &&& forall|other: AccountId|
                    other != owner ==> #[trigger] after.count_of(other) == self.count_of(other)
            }),
    {
    }

    /// What removing gives: `Inconsistent` where `id` is not removable, else
    /// the shorter enumeration.
    pub open spec fn remove_outcome(self, owner: AccountId, id: KittyId) -> Result<Self, Error> {
        if self.removable(owner, id) {
            Ok(self.remove(owner, id))
        } else {
            Err(Error::Inconsistent)
        }
    }
}

impl View for OwnedKitties {
    type V = OwnedKittiesView;

    open spec fn view(&self) -> OwnedKittiesView {
        OwnedKittiesView { array: slots_of(self.array@), count: self.count@, index: self.index@ }
    }
}

impl OwnedKitties {
    /// Nobody holds anything.
    pub fn new() -> (owned: Self)
        ensures
            owned@ == OwnedKittiesView::empty(),
    {
        let owned = OwnedKitties {
            array: HashMap::new(),
            count: HashMap::new(),
            index: HashMap::new(),
        };
        assert(owned@.array =~= Map::empty());
        owned
    }

    /// How many kitties `owner` holds.
    pub fn count_of(&self, owner: AccountId) -> (count: u64)
        ensures
            count == self@.count_of(owner),
    {
        match self.count.get(&owner) {
            Some(count) => *count,
            None => 0,
        }
    }

    /// The kitty in slot `slot` of `owner`.
    pub fn by_index(&self, owner: AccountId, slot: u64) -> (result: Result<KittyId, Error>)
        ensures
            result == if self@.array.contains_key((owner, slot)) {
                Ok(self@.array[(owner, slot)])
            } else {
                Err(Error::NotFound)
            },
    {
        match self.array.get(&slot_key(owner, slot)) {
            Some(id) => Ok(*id),
            None => Err(Error::NotFound),
        }
    }

    /// The slot of the kitty `id` in the array of its owner.
    pub fn index_of(&self, id: KittyId) -> (result: Result<u64, Error>)
        ensures
            result == if self@.index.contains_key(id) {
                Ok(self@.index[id])
            } else {
                Err(Error::NotFound)
            },
    {
        match self.index.get(&id) {
            Some(slot) => Ok(*slot),
            None => Err(Error::NotFound),
        }
    }

    /// Whether `remove(owner, id)` would succeed.
    pub fn removable(&self, owner: AccountId, id: KittyId) -> (yes: bool)
        ensures
            yes == self@.removable(owner, id),
    {
        let count = self.count_of(owner);
        if count == 0 {
            return false;
        }
        match self.index.get(&id) {
            Some(slot) => *slot < count && self.array.contains_key(&slot_key(owner, count - 1)),
            None => false,
        }
    }

    /// Puts `id` behind the last kitty of `owner`.
    pub fn append(&mut self, owner: AccountId, id: KittyId) -> (result: Result<(), Error>)
        ensures
            match old(self)@.append_outcome(owner, id) {
                Ok(owned) => result == Ok::<(), Error>(()) && final(self)@ == owned,
                Err(e) => result == Err::<(), Error>(e) && *final(self) == *old(self),
            },
    {
        let count = self.count_of(owner);
        if count == u64::MAX {
            return Err(Error::CounterOverflow);
        }
        proof {
            lemma_slots_of_insert(self.array@, owner, count, id);
        }
        self.array.insert(slot_key(owner, count), id);
        self.count.insert(owner, count + 1);
        self.index.insert(id, count);
        Ok(())
    }

    /// Takes `id` out of the array of `owner` and fills its slot with the
    /// owner's last kitty.
    pub fn remove(&mut self, owner: AccountId, id: KittyId) -> (result: Result<(), Error>)
        ensures
            match old(self)@.remove_outcome(owner, id) {
                Ok(owned) => result == Ok::<(), Error>(()) && final(self)@ == owned,
                Err(e) => result == Err::<(), Error>(e) && *final(self) == *old(self),
            },
    {
        let count = self.count_of(owner);
        if count == 0 {
            return Err(Error::Inconsistent);
        }
        let slot = match self.index.get(&id) {
            Some(slot) => *slot,
            None => { return Err(Error::Inconsistent); },
        };
        if slot >= count {
            return Err(Error::Inconsistent);
        }
        let last = count - 1;
        let last_id = match self.array.get(&slot_key(owner, last)) {
            Some(last_id) => *last_id,
            None => { return Err(Error::Inconsistent); },
        };
        if slot != last {
            proof {
                lemma_slots_of_insert(self.array@, owner, slot, last_id);
            }
            self.array.insert(slot_key(owner, slot), last_id);
            self.index.insert(last_id, slot);
        }
        proof {
            lemma_slots_of_remove(self.array@, owner, last);
        }
        self.array.remove(&slot_key(owner, last));
        self.count.insert(owner, last);
        self.index.remove(&id);
        Ok(())
    }
}

} // verus!
