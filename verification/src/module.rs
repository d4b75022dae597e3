//! The ledger and its operations.
//!
//! Every operation takes the account that makes the call as an argument: the
//! host has verified who that is. What the host's event log should record is
//! returned as an [`Event`]. The two things that only the host can do come in
//! as arguments: the random seed for `create_kitty`, and for `buy_kitty` the
//! word whether the payment named by `payment_due` was made.

use vstd::prelude::*;

use crate::entity_store::Kitties;
use crate::global_enumeration::AllKitties;
use crate::identifier::{derive_identifier, spec_derive_identifier};
use crate::laws::{
    lemma_buy_keeps_wf, lemma_mint_keeps_wf, lemma_owned_kitty_is_removable,
    lemma_set_price_keeps_wf, lemma_transfer_keeps_wf,
};
use crate::model::ModuleView;
use crate::owner_enumeration::OwnedKitties;
use crate::ownership::KittyOwner;
use crate::types::{AccountId, Balance, Error, Event, Kitty, KittyId, Payment};

verus! {

/// The ledger: one value that owns all of its state.
///
/// The fields are public so that a host can store and restore them. Every
/// operation works on any value of the fields, reports what it cannot do as
/// an [`Error`], and then changes nothing; a ledger that is consistent
/// (`self@.wf()`) stays so.
#[derive(Clone, Debug, PartialEq, Eq)]
pub struct Module {
    pub kitties: Kitties,
    pub kitty_owner: KittyOwner,
    pub all_kitties: AllKitties,
    pub owned_kitties: OwnedKitties,
    pub nonce: u64,
}

impl View for Module {
    type V = ModuleView;

    open spec fn view(&self) -> ModuleView {
        ModuleView {
            kitties: self.kitties@,
            kitty_owner: self.kitty_owner@,
            all_kitties: self.all_kitties@,
            owned_kitties: self.owned_kitties@,
            nonce: self.nonce,
        }
    }
}

impl Module {
    /// The ledger before anything was minted.
    pub fn new() -> (module: Self)
        ensures
            module@ == ModuleView::empty(),
            module@.wf(),
    {
        Module {
            kitties: Kitties::new(),
            kitty_owner: KittyOwner::new(),
            all_kitties: AllKitties::new(),
            owned_kitties: OwnedKitties::new(),
            nonce: 0,
        }
    }

    /// The record of the kitty `id`.
    pub fn kitty(&self, id: KittyId) -> (result: Result<Kitty<KittyId, Balance>, Error>)
        ensures
            result == if self@.kitties.contains_key(id) {
                Ok(self@.kitties[id])
            } else {
                Err(Error::NotFound)
            },
    {
        self.kitties.get(id)
    }

    /// The owner of the kitty `id`.
    pub fn owner_of(&self, id: KittyId) -> (result: Result<AccountId, Error>)
        ensures
            result == if self@.kitty_owner.contains_key(id) {
                Ok(self@.kitty_owner[id])
            } else {
                Err(Error::NotFound)
            },
    {
        self.kitty_owner.owner_of(id)
    }

    /// The kitty that was minted as number `index`, counting from zero.
    pub fn kitty_by_index(&self, index: u64) -> (result: Result<KittyId, Error>)
        ensures
            result == if self@.all_kitties.array.contains_key(index) {
                Ok(self@.all_kitties.array[index])
            } else {
                Err(Error::NotFound)
            },
            self@.wf() ==> (result is Ok <==> index < self@.all_kitties.count),
    {
        self.all_kitties.by_index(index)
    }

    /// How many kitties were minted.
    pub fn all_kitties_count(&self) -> (count: u64)
        ensures
            count == self@.all_kitties.count,
    {
        self.all_kitties.count()
    }

    /// The kitty in slot `index` of `owner`.
    pub fn kitty_of_owner_by_index(&self, owner: AccountId, index: u64) -> (result: Result<
        KittyId,
        Error,
    >)
        ensures
            result == if self@.owned_kitties.array.contains_key((owner, index)) {
                Ok(self@.owned_kitties.array[(owner, index)])
            } else {
                Err(Error::NotFound)
            },
            self@.wf() ==> (result is Ok <==> index < self@.owned_kitties.count_of(owner)),
    {
        let result = self.owned_kitties.by_index(owner, index);
        assert(self@.wf() ==> (self@.owned_kitties.array.contains_key((owner, index)) <==> (
            owner,
            index,
        ).1 < self@.owned_kitties.count_of((owner, index).0)));
        result
    }

    /// How many kitties `owner` holds.
    pub fn owned_kitty_count(&self, owner: AccountId) -> (count: u64)
        ensures
            count == self@.owned_kitties.count_of(owner),
    {
        self.owned_kitties.count_of(owner)
    }

    /// The identifier of the kitty that `sender` would create now under the
    /// seed `random_seed`, unless a kitty of that identifier has an owner.
    pub fn next_identifier(&self, sender: AccountId, random_seed: &[u8; 32]) -> (result: Result<
        KittyId,
        Error,
    >)
        ensures
            result == if self@.kitty_owner.contains_key(
                spec_derive_identifier(random_seed@, sender, self@.nonce),
            ) {
                Err(Error::IdentifierCollision)
            } else {
                Ok(spec_derive_identifier(random_seed@, sender, self@.nonce))
            },
    {
        let id = derive_identifier(random_seed, sender, self.nonce);
        if self.kitty_owner.contains(id) {
            Err(Error::IdentifierCollision)
        } else {
            Ok(id)
        }
    }

    /// Whether `id` can be minted for `to`, and why not.
    pub fn mint_check(&self, to: AccountId, id: KittyId) -> (result: Result<(), Error>)
        ensures
            result == match self@.mint_refusal(to, id) {
                Some(e) => Err(e),
                None => Ok(()),
            },
    {
        if self.kitty_owner.contains(id) {
            return Err(Error::IdentifierCollision);
        }
        if self.kitties.contains(id) {
            return Err(Error::AlreadyExists);
        }
        if self.all_kitties.count() == u64::MAX {
            return Err(Error::CounterOverflow);
        }
        if self.owned_kitties.count_of(to) == u64::MAX {
            return Err(Error::CounterOverflow);
        }
        Ok(())
    }

    /// Adds the kitty `kitty_id` with the record `new_kitty` and the owner
    /// `to`, behind the last entry of both enumerations.
    ///
    /// Refused with `IdentifierCollision` where `kitty_id` has an owner, with
    /// `AlreadyExists` where it has a record, and with `CounterOverflow`
    /// where the count of all kitties or the count of `to` is `u64::MAX`.
    pub fn mint(&mut self, to: AccountId, kitty_id: KittyId, new_kitty: Kitty<KittyId, Balance>) -> (result:
        Result<Event, Error>)
        ensures
            match old(self)@.mint_outcome(to, kitty_id, new_kitty) {
                Ok(next) => result == Ok::<Event, Error>(Event::Created(to, kitty_id))
                    && final(self)@ == next,
                Err(e) => result == Err::<Event, Error>(e) && *final(self) == *old(self),
            },
            old(self)@.all_kitties.count == u64::MAX || old(self)@.owned_kitties.count_of(to)
                == u64::MAX ==> result is Err && *final(self) == *old(self),
            (old(self)@.all_kitties.count == u64::MAX || old(self)@.owned_kitties.count_of(to)
                == u64::MAX) && !old(self)@.kitty_owner.contains_key(kitty_id)
                && !old(self)@.kitties.contains_key(kitty_id) ==> result == Err::<Event, Error>(
                Error::CounterOverflow,
            ),
            old(self)@.wf() ==> final(self)@.wf(),
    {
        match self.mint_check(to, kitty_id) {
            Err(e) => { return Err(e); },
            Ok(()) => {},
        }
        let stored = self.kitties.insert(kitty_id, new_kitty);
        self.kitty_owner.set_owner(kitty_id, to);
        let listed = self.all_kitties.append(kitty_id);
        let held = self.owned_kitties.append(to, kitty_id);
        assert(stored is Ok && listed is Ok && held is Ok);
        proof {
            if old(self)@.wf() {
                lemma_mint_keeps_wf(old(self)@, to, kitty_id, new_kitty);
            }
        }
        Ok(Event::Created(to, kitty_id))
    }

    /// Creates a kitty for `sender`: a newborn whose identifier is the hash
    /// of the seed, the sender and the nonce. The nonce moves on by one.
    ///
    /// Refused as `mint` is, and with `CounterOverflow` where the nonce is
    /// `u64::MAX`.
    pub fn create_kitty(&mut self, sender: AccountId, random_seed: &[u8; 32]) -> (result: Result<
        Event,
        Error,
    >)
        ensures
            match old(self)@.create_kitty_outcome(sender, random_seed@) {
                Ok(next) => result == Ok::<Event, Error>(
                    Event::Created(
                        sender,
                        spec_derive_identifier(random_seed@, sender, old(self)@.nonce),
                    ),
                ) && final(self)@ == next,
                Err(e) => result == Err::<Event, Error>(e) && *final(self) == *old(self),
            },
            old(self)@.all_kitties.count == u64::MAX || old(self)@.owned_kitties.count_of(sender)
                == u64::MAX || old(self)@.nonce == u64::MAX ==> result is Err && *final(self)
                == *old(self),
            ({
                let id = spec_derive_identifier(random_seed@, sender, old(self)@.nonce);
                (old(self)@.all_kitties.count == u64::MAX || old(self)@.owned_kitties.count_of(
                    sender,
                ) == u64::MAX || old(self)@.nonce == u64::MAX)
                    && !old(self)@.kitty_owner.contains_key(id) && !old(self)@.kitties.contains_key(
                    id,
                ) ==> result == Err::<Event, Error>(Error::CounterOverflow)
            }),
            old(self)@.wf() ==> final(self)@.wf(),
    {
        let id = match self.next_identifier(sender, random_seed) {
            Ok(id) => id,
            Err(e) => { return Err(e); },
        };
        match self.mint_check(sender, id) {
            Err(e) => { return Err(e); },
            Ok(()) => {},
        }
        let nonce = self.nonce;
        if nonce == u64::MAX {
            return Err(Error::CounterOverflow);
        }
        match self.mint(sender, id, Kitty::newborn(id)) {
            Ok(event) => {
                self.nonce = nonce + 1;
                Ok(event)
            },
            Err(e) => Err(e),
        }
    }

    /// Lets the owner `sender` price the kitty `kitty_id`. A price of zero
    /// takes it off the market.
    ///
    /// Refused with `NotFound` where the kitty has no record or no owner, and
    /// with `NotOwner` where its owner is not `sender`.
    pub fn set_price(&mut self, sender: AccountId, kitty_id: KittyId, new_price: Balance) -> (result:
        Result<Event, Error>)
        ensures
            match old(self)@.set_price_outcome(sender, kitty_id, new_price) {
                Ok(next) => result == Ok::<Event, Error>(
                    Event::PriceSet(sender, kitty_id, new_price),
                ) && final(self)@ == next,
                Err(e) => result == Err::<Event, Error>(e) && *final(self) == *old(self),
            },
            old(self)@.kitties.contains_key(kitty_id) && old(self)@.kitty_owner.contains_key(kitty_id)
                && old(self)@.kitty_owner[kitty_id] != sender ==> result == Err::<Event, Error>(
                Error::NotOwner,
            ) && final(self)@.kitties[kitty_id].price == old(self)@.kitties[kitty_id].price,
            old(self)@.wf() ==> final(self)@.wf(),
    {
        if !self.kitties.contains(kitty_id) {
            return Err(Error::NotFound);
        }
        let owner = match self.kitty_owner.owner_of(kitty_id) {
            Ok(owner) => owner,
            Err(e) => { return Err(e); },
        };
        if owner != sender {
            return Err(Error::NotOwner);
        }
        let priced = self.kitties.set_price(kitty_id, new_price);
        assert(priced is Ok);
        proof {
            if old(self)@.wf() {
                lemma_set_price_keeps_wf(old(self)@, sender, kitty_id, new_price);
            }
        }
        Ok(Event::PriceSet(sender, kitty_id, new_price))
    }

    /// Moves the kitty `kitty_id` from `from` to `to`: it leaves the array of
    /// `from`, whose last kitty takes its slot, goes behind the last kitty of
    /// `to`, and `to` becomes its owner. Where `from` and `to` are the same
    /// account, the kitty moves to the end of that account's array.
    ///
    /// Refused with `NotFound` where the kitty has no owner, with `NotOwner`
    /// where its owner is not `from`, with `CounterOverflow` where the count
    /// of `to` is `u64::MAX`, and with `Inconsistent` where the kitty cannot
    /// be taken out of the array of `from`.
    pub fn transfer_from(&mut self, from: AccountId, to: AccountId, kitty_id: KittyId) -> (result:
        Result<(), Error>)
        ensures
            match old(self)@.transfer_from_outcome(from, to, kitty_id) {
                Ok(next) => result == Ok::<(), Error>(()) && final(self)@ == next,
                Err(e) => result == Err::<(), Error>(e) && *final(self) == *old(self),
            },
            old(self)@.wf() ==> final(self)@.wf() && result != Err::<(), Error>(Error::Inconsistent),
    {
        let owner = match self.kitty_owner.owner_of(kitty_id) {
            Ok(owner) => owner,
            Err(e) => { return Err(e); },
        };
        if owner != from {
            return Err(Error::NotOwner);
        }
        if self.owned_kitties.count_of(to) == u64::MAX {
            return Err(Error::CounterOverflow);
        }
        proof {
            if self@.wf() {
                lemma_owned_kitty_is_removable(self@, kitty_id);
            }
        }
        match self.owned_kitties.remove(from, kitty_id) {
            Err(e) => { return Err(e); },
            Ok(()) => {},
        }
        let held = self.owned_kitties.append(to, kitty_id);
        assert(held is Ok);
        self.kitty_owner.set_owner(kitty_id, to);
        proof {
            if old(self)@.wf() {
                lemma_transfer_keeps_wf(old(self)@, from, to, kitty_id);
            }
        }
        Ok(())
    }

    /// Lets the owner `sender` give the kitty `kitty_id` to `to`, as
    /// `transfer_from` does.
    pub fn transfer(&mut self, sender: AccountId, to: AccountId, kitty_id: KittyId) -> (result: Result<
        Event,
        Error,
    >)
        ensures
            match old(self)@.transfer_from_outcome(sender, to, kitty_id) {
                Ok(next) => result == Ok::<Event, Error>(
                    Event::Transferred(sender, to, kitty_id),
                ) && final(self)@ == next,
                Err(e) => result == Err::<Event, Error>(e) && *final(self) == *old(self),
            },
            old(self)@.wf() ==> final(self)@.wf() && result != Err::<Event, Error>(
                Error::Inconsistent,
            ),
    {
        match self.transfer_from(sender, to, kitty_id) {
            Ok(()) => Ok(Event::Transferred(sender, to, kitty_id)),
            Err(e) => Err(e),
        }
    }

    /// What `sender` owes for the kitty `kitty_id`.
    fn quote(&self, sender: AccountId, kitty_id: KittyId, max_price: Balance) -> (result: Result<
        Payment,
        Error,
    >)
        ensures
            result == self@.quote(sender, kitty_id, max_price),
    {
        let kitty = match self.kitties.get(kitty_id) {
            Ok(kitty) => kitty,
            Err(e) => { return Err(e); },
        };
        let owner = match self.kitty_owner.owner_of(kitty_id) {
            Ok(owner) => owner,
            Err(e) => { return Err(e); },
        };
        if owner == sender {
            return Err(Error::SelfTrade);
        }
        let kitty_price = kitty.price;
        if kitty_price == 0 {
            return Err(Error::NotForSale);
        }
        if kitty_price > max_price {
            return Err(Error::PriceExceeded);
        }
        Ok(Payment { from: sender, to: owner, amount: kitty_price })
    }

    /// The payment that `sender` has to make to buy the kitty `kitty_id` for
    /// at most `max_price`: exactly the listed price, to the owner.
    ///
    /// Refused with `NotFound` where the kitty has no record or no owner,
    /// with `SelfTrade` where `sender` owns it, with `NotForSale` where its
    /// price is zero, with `PriceExceeded` where its price is above
    /// `max_price`, and where the kitty could not change hands even when paid
    /// for: with `CounterOverflow` or `Inconsistent`, as `transfer_from`
    /// tells. So a payment is due exactly where `buy_kitty` succeeds once it
    /// is made.
    pub fn payment_due(&self, sender: AccountId, kitty_id: KittyId, max_price: Balance) -> (result:
        Result<Payment, Error>)
        ensures
            result == self@.payment_due_outcome(sender, kitty_id, max_price),
            result matches Ok(payment) ==> payment.from == sender && payment.to
                == self@.kitty_owner[kitty_id] && payment.amount == self@.kitties[kitty_id].price
                && 0 < payment.amount <= max_price,
            result is Ok <==> self@.buy_kitty_outcome(sender, kitty_id, max_price, true) is Ok,
            self@.wf() ==> result != Err::<Payment, Error>(Error::Inconsistent),
    {
        let payment = match self.quote(sender, kitty_id, max_price) {
            Ok(payment) => payment,
            Err(e) => { return Err(e); },
        };
        if self.owned_kitties.count_of(sender) == u64::MAX {
            return Err(Error::CounterOverflow);
        }
        proof {
            if self@.wf() {
                lemma_owned_kitty_is_removable(self@, kitty_id);
            }
        }
        if !self.owned_kitties.removable(payment.to, kitty_id) {
            return Err(Error::Inconsistent);
        }
        Ok(payment)
    }

    /// Sells the kitty `kitty_id` to `sender`. `paid` tells whether the
    /// host's currency ledger has made the payment that `payment_due` asked
    /// for. The kitty moves from its owner to the buyer, as `transfer_from`
    /// does, and its price becomes zero.
    ///
    /// Refused with `NotFound`, `SelfTrade`, `NotForSale` or `PriceExceeded`
    /// as `payment_due` is, then with `PaymentFailed` where `paid` is false,
    /// then with `CounterOverflow` or `Inconsistent` as `transfer_from` is.
    pub fn buy_kitty(
        &mut self,
        sender: AccountId,
        kitty_id: KittyId,
        max_price: Balance,
        paid: bool,
    ) -> (result: Result<Event, Error>)
        ensures
            match old(self)@.buy_kitty_outcome(sender, kitty_id, max_price, paid) {
                Ok(next) => result == Ok::<Event, Error>(
                    Event::Bought(
                        sender,
                        old(self)@.kitty_owner[kitty_id],
                        kitty_id,
                        old(self)@.kitties[kitty_id].price,
                    ),
                ) && final(self)@ == next,
                Err(e) => result == Err::<Event, Error>(e) && *final(self) == *old(self),
            },
            old(self)@.payment_due_outcome(sender, kitty_id, max_price) is Ok ==> (result is Ok
                <==> paid),
            old(self)@.wf() ==> final(self)@.wf() && result != Err::<Event, Error>(
                Error::Inconsistent,
            ),
    {
        let payment = match self.quote(sender, kitty_id, max_price) {
            Ok(payment) => payment,
            Err(e) => { return Err(e); },
        };
        if !paid {
            return Err(Error::PaymentFailed);
        }
        match self.transfer_from(payment.to, sender, kitty_id) {
            Err(e) => { return Err(e); },
            Ok(()) => {},
        }
        let delisted = self.kitties.set_price(kitty_id, 0);
        assert(delisted is Ok);
        proof {
            if old(self)@.wf() {
                lemma_buy_keeps_wf(old(self)@, sender, kitty_id, max_price, paid);
            }
        }
        Ok(Event::Bought(sender, payment.to, kitty_id, payment.amount))
    }
}

} // verus!
