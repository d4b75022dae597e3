//! The table of kitty records, keyed by identifier.

use std::collections::HashMap;
use vstd::prelude::*;

use crate::types::{Balance, Error, Kitty, KittyId};

verus! {

/// The records of all kitties that were ever minted.
#[derive(Clone, Debug, PartialEq, Eq)]
pub struct Kitties {
    pub map: HashMap<KittyId, Kitty<KittyId, Balance>>,
}

/// What storing `record` under `id` gives: the table with the record added,
/// or `AlreadyExists` where `id` is taken.
pub open spec fn insert_outcome(
    table: Map<KittyId, Kitty<KittyId, Balance>>,
    id: KittyId,
    record: Kitty<KittyId, Balance>,
) -> Result<Map<KittyId, Kitty<KittyId, Balance>>, Error> {
    if table.contains_key(id) {
        Err(Error::AlreadyExists)
    } else {
        Ok(table.insert(id, record))
    }
}

/// What pricing `id` at `price` gives: the table with that one field
/// replaced, or `NotFound` where `id` is absent.
pub open spec fn set_price_outcome(
    table: Map<KittyId, Kitty<KittyId, Balance>>,
    id: KittyId,
    price: Balance,
) -> Result<Map<KittyId, Kitty<KittyId, Balance>>, Error> {
    if table.contains_key(id) {
        Ok(table.insert(id, table[id].with_price(price)))
    } else {
        Err(Error::NotFound)
    }
}

impl View for Kitties {
    type V = Map<KittyId, Kitty<KittyId, Balance>>;

    open spec fn view(&self) -> Self::V {
        self.map@
    }
}

impl Kitties {
    /// An empty table.
    pub fn new() -> (table: Self)
        ensures
            table@ == Map::<KittyId, Kitty<KittyId, Balance>>::empty(),
    {
        Kitties { map: HashMap::new() }
    }

    /// Whether a record is stored under `id`.
    pub fn contains(&self, id: KittyId) -> (found: bool)
        ensures
            found == self@.contains_key(id),
    {
        self.map.contains_key(&id)
    }

    /// The record stored under `id`.
    pub fn get(&self, id: KittyId) -> (result: Result<Kitty<KittyId, Balance>, Error>)
        ensures
            result == if self@.contains_key(id) {
                Ok(self@[id])
            } else {
                Err(Error::NotFound)
            },
    {
        match self.map.get(&id) {
            Some(record) => Ok(*record),
            None => Err(Error::NotFound),
        }
    }

    /// Stores `record` under `id`, unless a record is already there.
    pub fn insert(&mut self, id: KittyId, record: Kitty<KittyId, Balance>) -> (result: Result<
        (),
        Error,
    >)
        ensures
            match insert_outcome(old(self)@, id, record) {
                Ok(table) => result == Ok::<(), Error>(()) && final(self)@ == table,
                Err(e) => result == Err::<(), Error>(e) && *final(self) == *old(self),
            },
    {
        if self.map.contains_key(&id) {
            return Err(Error::AlreadyExists);
        }
        self.map.insert(id, record);
        Ok(())
    }

    /// Replaces the price of the kitty `id`; every other field stays.
    pub fn set_price(&mut self, id: KittyId, new_price: Balance) -> (result: Result<(), Error>)
        ensures
            match set_price_outcome(old(self)@, id, new_price) {
                Ok(table) => result == Ok::<(), Error>(()) && final(self)@ == table,
                Err(e) => result == Err::<(), Error>(e) && *final(self) == *old(self),
            },
    {
        let record = match self.map.get(&id) {
            Some(record) => *record,
            None => { return Err(Error::NotFound); },
        };
        self.map.insert(id, record.with_price(new_price));
        Ok(())
    }
}

} // verus!
