//! The ledger as a mathematical value: what each operation makes of it, and
//! what it means for it to be consistent.

use vstd::prelude::*;

use crate::global_enumeration::AllKittiesView;
use crate::identifier::spec_derive_identifier;
use crate::owner_enumeration::OwnedKittiesView;
use crate::types::{AccountId, Balance, Error, Kitty, KittyId, Payment};

verus! {

/// The whole ledger.
#[verifier::ext_equal]
pub struct ModuleView {
    /// kitty -> its record
    pub kitties: Map<KittyId, Kitty<KittyId, Balance>>,
    /// kitty -> its owner
    pub kitty_owner: Map<KittyId, AccountId>,
    /// the enumeration of all kitties
    pub all_kitties: AllKittiesView,
    /// the enumeration of each owner's kitties
    pub owned_kitties: OwnedKittiesView,
    /// the number of kitties created so far by `create_kitty`
    pub nonce: u64,
}

/// A call of one of the ledger's operations, with its arguments.
pub enum Call {
    CreateKitty { sender: AccountId, random_seed: Seq<u8> },
    Mint { to: AccountId, kitty_id: KittyId, new_kitty: Kitty<KittyId, Balance> },
    SetPrice { sender: AccountId, kitty_id: KittyId, new_price: Balance },
    Transfer { sender: AccountId, to: AccountId, kitty_id: KittyId },
    TransferFrom { from: AccountId, to: AccountId, kitty_id: KittyId },
    BuyKitty { sender: AccountId, kitty_id: KittyId, max_price: Balance, paid: bool },
}

impl Call {
    /// Whether the call asks for a new kitty.
    pub open spec fn is_mint(self) -> bool {
        self is CreateKitty || self is Mint
    }
}

impl ModuleView {
    /// The ledger before anything was minted.
    pub open spec fn empty() -> Self {
        ModuleView {
            kitties: Map::empty(),
            kitty_owner: Map::empty(),
            all_kitties: AllKittiesView::empty(),
            owned_kitties: OwnedKittiesView::empty(),
            nonce: 0,
        }
    }

    /// The kitties that `owner` owns.
    pub open spec fn kitties_of(self, owner: AccountId) -> Set<KittyId> {
        Set::new(|id: KittyId| self.kitty_owner.contains_key(id) && self.kitty_owner[id] == owner)
    }

    /// Every owner's array is dense and holds exactly the kitties that the
    /// owner owns, each in the slot that the index gives for it.
    pub open spec fn owned_wf(self) -> bool {
        let owned = self.owned_kitties;
        let owner = self.kitty_owner;
        &&& forall|id: KittyId|
            #![trigger owned.index.contains_key(id)]
            #![trigger owner.contains_key(id)]
            owned.index.contains_key(id) <==> owner.contains_key(id)
        &&& forall|id: KittyId| #[trigger]
            owner.contains_key(id) ==> owned.index[id] < owned.count_of(owner[id]) && owned.array[(
                owner[id],
                owned.index[id],
            )] == id
        &&& forall|k: (AccountId, u64)| #[trigger]
            owned.array.contains_key(k) <==> k.1 < owned.count_of(k.0)
        &&& forall|k: (AccountId, u64)|
            k.1 < owned.count_of(k.0) ==> owner.contains_key(#[trigger] owned.array[k])
                && owner[owned.array[k]] == k.0 && owned.index[owned.array[k]] == k.1
    }

    /// The ledger is consistent: every kitty with a record has an owner and
    /// the other way round, the enumeration of all kitties is well-formed and
    /// holds exactly the kitties that exist, and every owner's enumeration
    /// holds exactly what the owner owns.
    pub open spec fn wf(self) -> bool {
        &&& forall|id: KittyId|
            #![trigger self.kitties.contains_key(id)]
            #![trigger self.kitty_owner.contains_key(id)]
            self.kitties.contains_key(id) <==> self.kitty_owner.contains_key(id)
        &&& forall|id: KittyId|
            #![trigger self.all_kitties.index.contains_key(id)]
            #![trigger self.kitty_owner.contains_key(id)]
            self.all_kitties.index.contains_key(id) <==> self.kitty_owner.contains_key(id)
        &&& self.all_kitties.wf()
        &&& self.owned_wf()
    }

    /// Why `id` cannot be minted for `to`, if it cannot.
    pub open spec fn mint_refusal(self, to: AccountId, id: KittyId) -> Option<Error> {
        if self.kitty_owner.contains_key(id) {
            Some(Error::IdentifierCollision)
        } else if self.kitties.contains_key(id) {
            Some(Error::AlreadyExists)
        } else if self.all_kitties.count == u64::MAX {
            Some(Error::CounterOverflow)
        } else if self.owned_kitties.count_of(to) == u64::MAX {
            Some(Error::CounterOverflow)
        } else {
            None
        }
    }

    /// The ledger with the kitty `id` added: its record stored, `to` its
    /// owner, and `id` behind the last entry of both enumerations.
    pub open spec fn mint(self, to: AccountId, id: KittyId, record: Kitty<KittyId, Balance>) -> Self {
        ModuleView {
            kitties: self.kitties.insert(id, record),
            kitty_owner: self.kitty_owner.insert(id, to),
            all_kitties: self.all_kitties.append(id),
            owned_kitties: self.owned_kitties.append(to, id),
            nonce: self.nonce,
        }
    }

    /// What minting gives.
    pub open spec fn mint_outcome(
        self,
        to: AccountId,
        id: KittyId,
        record: Kitty<KittyId, Balance>,
    ) -> Result<Self, Error> {
        match self.mint_refusal(to, id) {
            Some(e) => Err(e),
            None => Ok(self.mint(to, id, record)),
        }
    }

    /// What `sender` creating a kitty under the seed `random_seed` gives: the
    /// kitty named by the hash of seed, sender and nonce is minted for the
    /// sender as a newborn, and the nonce moves on by one.
    pub open spec fn create_kitty_outcome(self, sender: AccountId, random_seed: Seq<u8>) -> Result<
        Self,
        Error,
    > {
        let id = spec_derive_identifier(random_seed, sender, self.nonce);
        match self.mint_outcome(sender, id, Kitty::newborn(id)) {
            Err(e) => Err(e),
            Ok(minted) => if self.nonce == u64::MAX {
                Err(Error::CounterOverflow)
            } else {
                Ok(ModuleView { nonce: (self.nonce + 1) as u64, ..minted })
            },
        }
    }

    /// Why `sender` may not act as the owner of `id`, if it may not.
    pub open spec fn owner_refusal(self, sender: AccountId, id: KittyId) -> Option<Error> {
        if !self.kitty_owner.contains_key(id) {
            Some(Error::NotFound)
        } else if self.kitty_owner[id] != sender {
            Some(Error::NotOwner)
        } else {
            None
        }
    }

    /// What `sender` pricing `id` at `new_price` gives.
    pub open spec fn set_price_outcome(self, sender: AccountId, id: KittyId, new_price: Balance) -> Result<
        Self,
        Error,
    > {
        if !self.kitties.contains_key(id) {
            Err(Error::NotFound)
        } else {
            match self.owner_refusal(sender, id) {
                Some(e) => Err(e),
                None => Ok(
                    ModuleView {
                        kitties: self.kitties.insert(id, self.kitties[id].with_price(new_price)),
                        ..self
                    },
                ),
            }
        }
    }

    /// The ledger with `id` moved from the array of `from` to the end of the
    /// array of `to`, and `to` its owner.
    pub open spec fn move_kitty(self, from: AccountId, to: AccountId, id: KittyId) -> Self {
        ModuleView {
            kitty_owner: self.kitty_owner.insert(id, to),
            owned_kitties: self.owned_kitties.remove(from, id).append(to, id),
            ..self
        }
    }

    /// What moving `id` from `from` to `to` gives.
    pub open spec fn transfer_from_outcome(self, from: AccountId, to: AccountId, id: KittyId) -> Result<
        Self,
        Error,
    > {
        match self.owner_refusal(from, id) {
            Some(e) => Err(e),
            None => if self.owned_kitties.count_of(to) == u64::MAX {
                Err(Error::CounterOverflow)
            } else if !self.owned_kitties.removable(from, id) {
                Err(Error::Inconsistent)
            } else {
                Ok(self.move_kitty(from, to, id))
            },
        }
    }

    /// What `buyer` owes for `id` when willing to pay up to `max_price`: the
    /// listed price, to the owner. Refused where the kitty does not exist, is
    /// the buyer's own, is not for sale, or costs more.
    pub open spec fn quote(self, buyer: AccountId, id: KittyId, max_price: Balance) -> Result<
        Payment,
        Error,
    > {
        if !self.kitties.contains_key(id) || !self.kitty_owner.contains_key(id) {
            Err(Error::NotFound)
        } else if self.kitty_owner[id] == buyer {
            Err(Error::SelfTrade)
        } else if self.kitties[id].price == 0 {
            Err(Error::NotForSale)
        } else if self.kitties[id].price > max_price {
            Err(Error::PriceExceeded)
        } else {
            Ok(Payment { from: buyer, to: self.kitty_owner[id], amount: self.kitties[id].price })
        }
    }

    /// The payment to make before `buy_kitty`: the quote, unless the kitty
    /// could not change hands even when paid for.
    pub open spec fn payment_due_outcome(self, buyer: AccountId, id: KittyId, max_price: Balance) -> Result<
        Payment,
        Error,
    > {
        match self.quote(buyer, id, max_price) {
            Err(e) => Err(e),
            Ok(payment) => match self.transfer_from_outcome(payment.to, buyer, id) {
                Err(e) => Err(e),
                Ok(_) => Ok(payment),
            },
        }
    }

    /// What the purchase gives, `paid` telling whether the quoted payment
    /// was made: the kitty moves to the buyer and is no longer for sale.
    pub open spec fn buy_kitty_outcome(
        self,
        buyer: AccountId,
        id: KittyId,
        max_price: Balance,
        paid: bool,
    ) -> Result<Self, Error> {
        match self.quote(buyer, id, max_price) {
            Err(e) => Err(e),
            Ok(payment) => if !paid {
                Err(Error::PaymentFailed)
            } else {
                match self.transfer_from_outcome(payment.to, buyer, id) {
                    Err(e) => Err(e),
                    Ok(moved) => Ok(
                        ModuleView {
                            kitties: moved.kitties.insert(id, moved.kitties[id].with_price(0)),
                            ..moved
                        },
                    ),
                }
            },
        }
    }

    /// What the call gives.
    pub open spec fn apply(self, call: Call) -> Result<Self, Error> {
        match call {
            Call::CreateKitty { sender, random_seed } => self.create_kitty_outcome(
                sender,
                random_seed,
            ),
            Call::Mint { to, kitty_id, new_kitty } => self.mint_outcome(to, kitty_id, new_kitty),
            Call::SetPrice { sender, kitty_id, new_price } => self.set_price_outcome(
                sender,
                kitty_id,
                new_price,
            ),
            Call::Transfer { sender, to, kitty_id } => self.transfer_from_outcome(
                sender,
                to,
                kitty_id,
            ),
            Call::TransferFrom { from, to, kitty_id } => self.transfer_from_outcome(
                from,
                to,
                kitty_id,
            ),
            Call::BuyKitty { sender, kitty_id, max_price, paid } => self.buy_kitty_outcome(
                sender,
                kitty_id,
                max_price,
                paid,
            ),
        }
    }

    /// The ledger after the calls were made one after another. A call that
    /// is refused leaves the ledger as it was.
    pub open spec fn after(self, calls: Seq<Call>) -> Self
        decreases calls.len(),
    {
        if calls.len() == 0 {
            self
        } else {
            let before = self.after(calls.drop_last());
            match before.apply(calls.last()) {
                Ok(next) => next,
                Err(_) => before,
            }
        }
    }

    /// How many of the calls minted a kitty.
    pub open spec fn mints_in(self, calls: Seq<Call>) -> nat
        decreases calls.len(),
    {
        if calls.len() == 0 {
            0
        } else {
            let before = self.after(calls.drop_last());
            let minted: nat = if calls.last().is_mint() && before.apply(calls.last()) is Ok {
                1
            } else {
                0
            };
            self.mints_in(calls.drop_last()) + minted
        }
    }
}

} // verus!
