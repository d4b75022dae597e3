//! The plain values that the ledger stores, returns and reports.

use vstd::prelude::*;

verus! {

/// An account of the host chain. The host has already authenticated it.
pub type AccountId = u64;

/// The identifier of a kitty: a 128-bit hash value.
pub type KittyId = u128;

/// An amount of the host's currency.
pub type Balance = u128;

/// The record of one kitty.
///
/// `id`, `dna` and `gen` never change after the kitty is minted. A `price` of
/// zero means that the kitty is not for sale.
#[derive(Clone, Copy, Debug, PartialEq, Eq)]
pub struct Kitty<Hash, Balance> {
    pub id: Hash,
    pub dna: Hash,
    pub price: Balance,
    pub gen: u64,
}

/// Why an operation was refused. A refused operation changes nothing.
#[derive(Clone, Copy, Debug, PartialEq, Eq)]
pub enum Error {
    /// The kitty was never minted, or nothing is stored at the index asked for.
    NotFound,
    /// A record with this identifier is already stored.
    AlreadyExists,
    /// The identifier derived for a new kitty already has an owner.
    IdentifierCollision,
    /// The caller does not own the kitty.
    NotOwner,
    /// The buyer already owns the kitty.
    SelfTrade,
    /// The kitty's price is zero.
    NotForSale,
    /// The kitty costs more than the buyer is willing to pay.
    PriceExceeded,
    /// The host's currency ledger refused to move the price.
    PaymentFailed,
    /// A counter is at `u64::MAX` and cannot be incremented.
    CounterOverflow,
    /// The enumerations contradict each other. A consistent ledger never
    /// reports this.
    Inconsistent,
}

/// What a successful operation reports to the host's event log.
#[derive(Clone, Copy, Debug, PartialEq, Eq)]
pub enum Event {
    /// `Created(owner, kitty)`
    Created(AccountId, KittyId),
    /// `PriceSet(owner, kitty, new price)`
    PriceSet(AccountId, KittyId, Balance),
    /// `Transferred(from, to, kitty)`
    Transferred(AccountId, AccountId, KittyId),
    /// `Bought(buyer, seller, kitty, price paid)`
    Bought(AccountId, AccountId, KittyId, Balance),
}

/// An instruction to the host's currency ledger: move `amount` from `from` to
/// `to`, entirely or not at all.
#[derive(Clone, Copy, Debug, PartialEq, Eq)]
pub struct Payment {
    pub from: AccountId,
    pub to: AccountId,
    pub amount: Balance,
}

impl Kitty<KittyId, Balance> {
    /// The record of a kitty of the first generation: its identifier doubles
    /// as its dna, and it is not for sale.
    pub open spec fn spec_newborn(id: KittyId) -> Self {
        Kitty { id, dna: id, price: 0, gen: 0 }
    }

    #[verifier::when_used_as_spec(spec_newborn)]
    pub fn newborn(id: KittyId) -> (kitty: Self)
        ensures
            kitty == Self::spec_newborn(id),
    {
        Kitty { id, dna: id, price: 0, gen: 0 }
    }

    /// This record with another price.
    pub open spec fn spec_with_price(self, price: Balance) -> Self {
        Kitty { price, ..self }
    }

    #[verifier::when_used_as_spec(spec_with_price)]
    pub fn with_price(self, price: Balance) -> (kitty: Self)
        ensures
            kitty == self.spec_with_price(price),
    {
        Kitty { id: self.id, dna: self.dna, price, gen: self.gen }
    }
}

impl Default for Kitty<KittyId, Balance> {
    fn default() -> (kitty: Self)
        ensures
            kitty == (Kitty::<KittyId, Balance> { id: 0, dna: 0, price: 0, gen: 0 }),
    {
        Kitty { id: 0, dna: 0, price: 0, gen: 0 }
    }
}

} // verus!
