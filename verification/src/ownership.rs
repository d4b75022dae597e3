//! The owner of each kitty.

use std::collections::HashMap;
use vstd::prelude::*;

use crate::types::{AccountId, Error, KittyId};

verus! {

/// For every minted kitty, the account that owns it now.
#[derive(Clone, Debug, PartialEq, Eq)]
pub struct KittyOwner {
    pub map: HashMap<KittyId, AccountId>,
}

impl View for KittyOwner {
    type V = Map<KittyId, AccountId>;

    open spec fn view(&self) -> Self::V {
        self.map@
    }
}

impl KittyOwner {
    /// Nobody owns anything.
    pub fn new() -> (owners: Self)
        ensures
            owners@ == Map::<KittyId, AccountId>::empty(),
    {
        KittyOwner { map: HashMap::new() }
    }

    /// Whether `id` has an owner.
    pub fn contains(&self, id: KittyId) -> (found: bool)
        ensures
            found == self@.contains_key(id),
    {
        self.map.contains_key(&id)
    }

    /// The owner of `id`.
    pub fn owner_of(&self, id: KittyId) -> (result: Result<AccountId, Error>)
        ensures
            result == if self@.contains_key(id) {
                Ok(self@[id])
            } else {
                Err(Error::NotFound)
            },
    {
        match self.map.get(&id) {
            Some(owner) => Ok(*owner),
            None => Err(Error::NotFound),
        }
    }

    /// Makes `owner` the owner of `id`, whoever owned it before.
    pub fn set_owner(&mut self, id: KittyId, owner: AccountId)
        ensures
            final(self)@ == old(self)@.insert(id, owner),
    {
        self.map.insert(id, owner);
    }
}

} // verus!
