//! The permanent enumeration of every kitty ever minted.
//!
//! Kitties are numbered `0, 1, 2, ..` in the order of their minting. The
//! enumeration only grows: nothing is ever taken out of it.

use std::collections::HashMap;
use vstd::prelude::*;
use vstd::set_lib::{lemma_int_range, lemma_map_size, set_int_range};

use crate::types::{Error, KittyId};

verus! {

/// The enumeration as it is stored: the array, its length, and the inverse of
/// the array.
#[derive(Clone, Debug, PartialEq, Eq)]
pub struct AllKitties {
    pub array: HashMap<u64, KittyId>,
    pub count: u64,
    pub index: HashMap<KittyId, u64>,
}

/// The enumeration as a mathematical value.
#[verifier::ext_equal]
pub struct AllKittiesView {
    /// position -> kitty
    pub array: Map<u64, KittyId>,
    /// the number of positions in use
    pub count: u64,
    /// kitty -> position
    pub index: Map<KittyId, u64>,
}

impl AllKittiesView {
    /// The enumeration of nothing.
    pub open spec fn empty() -> Self {
        AllKittiesView { array: Map::empty(), count: 0, index: Map::empty() }
    }

    /// The enumeration with `id` put at the first free position.
    pub open spec fn append(self, id: KittyId) -> Self {
        AllKittiesView {
            array: self.array.insert(self.count, id),
            count: (self.count + 1) as u64,
            index: self.index.insert(id, self.count),
        }
    }

    /// What appending `id` gives: `CounterOverflow` where the count cannot
    /// grow, else the longer enumeration.
    pub open spec fn append_outcome(self, id: KittyId) -> Result<Self, Error> {
        if self.count == u64::MAX {
            Err(Error::CounterOverflow)
        } else {
            Ok(self.append(id))
        }
    }

    /// The kitties that are enumerated.
    pub open spec fn ids(self) -> Set<KittyId> {
        self.index.dom()
    }

    /// The array is dense, and array and index are inverse to each other.
    pub open spec fn wf(self) -> bool {
        &&& forall|i: u64| #[trigger] self.array.contains_key(i) <==> i < self.count
        &&& forall|id: KittyId| #[trigger]
            self.index.contains_key(id) ==> self.index[id] < self.count && self.array[self.index[id]]
                == id
        &&& forall|i: u64|
            i < self.count ==> self.index.contains_key(#[trigger] self.array[i])
                && self.index[self.array[i]] == i
    }

    /// Appending a kitty that is not yet enumerated keeps the enumeration
    /// well-formed.
    pub proof fn lemma_append_wf(self, id: KittyId)
        requires
            self.wf(),
            self.count < u64::MAX,
            !self.index.contains_key(id),
        ensures
            self.append(id).wf(),
            self.append(id).ids() == self.ids().insert(id),
            self.append(id).count == self.count + 1,
    {
        let next = self.append(id);
        assert forall|i: u64| i < next.count implies next.index.contains_key(
            #[trigger] next.array[i],
        ) && next.index[next.array[i]] == i by {
            if i < self.count {
                assert(self.index.contains_key(self.array[i]));
            }
        }
        assert(next.ids() =~= self.ids().insert(id));
    }

    /// In a well-formed enumeration the array is a bijection from the
    /// positions below `count` onto the enumerated kitties, so there are
    /// exactly `count` of them.
    pub proof fn lemma_count_is_number_of_ids(self)
        requires
            self.wf(),
        ensures
            self.ids().finite(),
            self.ids().len() == self.count,
            forall|i: u64, j: u64|
                i < self.count && j < self.count && self.array[i] == self.array[j] ==> i == j,
            forall|id: KittyId|
                self.ids().contains(id) <==> exists|i: u64|
                    i < self.count && #[trigger] self.array[i] == id,
    {
        let positions = set_int_range(0, self.count as int);
        let at = |i: int| self.array[i as u64];
        lemma_int_range(0, self.count as int);
        assert forall|i: int, j: int|
            positions.contains(i) && positions.contains(j) && #[trigger] at(i) == #[trigger] at(
                j,
            ) implies i == j by {
            assert(self.index[self.array[i as u64]] == i as u64);
            assert(self.index[self.array[j as u64]] == j as u64);
        }
        assert(positions.map(at) =~= self.ids()) by {
            assert forall|id: KittyId| self.ids().contains(id) implies positions.map(at).contains(
                id,
            ) by {
                let i = self.index[id];
                assert(positions.contains(i as int) && at(i as int) == id);
            }
            assert forall|id: KittyId| positions.map(at).contains(id) implies self.ids().contains(
                id,
            ) by {
                let i = choose|i: int| positions.contains(i) && at(i) == id;
                assert(self.index.contains_key(self.array[i as u64]));
            }
        }
        lemma_map_size(positions, self.ids(), at);
        assert forall|i: u64, j: u64|
            i < self.count && j < self.count && self.array[i] == self.array[j] implies i == j by {
            assert(self.index[self.array[i]] == i);
            assert(self.index[self.array[j]] == j);
        }
        assert forall|id: KittyId| self.ids().contains(id) implies exists|i: u64|
            i < self.count && #[trigger] self.array[i] == id by {
            let i = self.index[id];
            assert(i < self.count && self.array[i] == id);
        }
        assert forall|id: KittyId|
            (exists|i: u64| i < self.count && #[trigger] self.array[i] == id)
                implies self.ids().contains(id) by {
            let i = choose|i: u64| i < self.count && #[trigger] self.array[i] == id;
            assert(self.index.contains_key(self.array[i]));
        }
    }
}

impl View for AllKitties {
    type V = AllKittiesView;

    open spec fn view(&self) -> AllKittiesView {
        AllKittiesView { array: self.array@, count: self.count, index: self.index@ }
    }
}

impl AllKitties {
    /// The enumeration of nothing.
    pub fn new() -> (all: Self)
        ensures
            all@ == AllKittiesView::empty(),
            all@.wf(),
    {
        AllKitties { array: HashMap::new(), count: 0, index: HashMap::new() }
    }

    /// How many kitties are enumerated.
    pub fn count(&self) -> (count: u64)
        ensures
            count == self@.count,
    {
        self.count
    }

    /// The kitty at position `i`.
    pub fn by_index(&self, i: u64) -> (result: Result<KittyId, Error>)
        ensures
            result == if self@.array.contains_key(i) {
                Ok(self@.array[i])
            } else {
                Err(Error::NotFound)
            },
    {
        match self.array.get(&i) {
            Some(id) => Ok(*id),
            None => Err(Error::NotFound),
        }
    }

    /// The position of the kitty `id`.
    pub fn index_of(&self, id: KittyId) -> (result: Result<u64, Error>)
        ensures
            result == if self@.index.contains_key(id) {
                Ok(self@.index[id])
            } else {
                Err(Error::NotFound)
            },
    {
        match self.index.get(&id) {
            Some(i) => Ok(*i),
            None => Err(Error::NotFound),
        }
    }

    /// Puts `id` at the first free position.
    pub fn append(&mut self, id: KittyId) -> (result: Result<(), Error>)
        ensures
            match old(self)@.append_outcome(id) {
                Ok(all) => result == Ok::<(), Error>(()) && final(self)@ == all,
                Err(e) => result == Err::<(), Error>(e) && *final(self) == *old(self),
            },
    {
        let count = self.count;
        if count == u64::MAX {
            return Err(Error::CounterOverflow);
        }
        self.array.insert(count, id);
        self.index.insert(id, count);
        self.count = count + 1;
        Ok(())
    }
}

} // verus!
