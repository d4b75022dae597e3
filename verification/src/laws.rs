//! What holds of every consistent ledger and of every run of calls.
//!
//! The operations are taken here as the model states them; the contract of
//! each operation of [`crate::module::Module`] says that it does what the
//! model states.

use vstd::prelude::*;
use vstd::set_lib::{lemma_int_range, lemma_map_size, set_int_range};

use crate::identifier::spec_derive_identifier;
use crate::model::{Call, ModuleView};
use crate::types::{AccountId, Balance, Error, Kitty, KittyId};

verus! {

// Consistency is kept.

/// Minting keeps a consistent ledger consistent.
pub proof fn lemma_mint_keeps_wf(
    ledger: ModuleView,
    to: AccountId,
    id: KittyId,
    record: Kitty<KittyId, Balance>,
)
    requires
        ledger.wf(),
        ledger.mint_outcome(to, id, record) is Ok,
    ensures
        ledger.mint(to, id, record).wf(),
{
    let next = ledger.mint(to, id, record);
    ledger.all_kitties.lemma_append_wf(id);
    assert(next.owned_wf());
}

/// Pricing a kitty keeps a consistent ledger consistent.
pub proof fn lemma_set_price_keeps_wf(
    ledger: ModuleView,
    sender: AccountId,
    id: KittyId,
    new_price: Balance,
)
    requires
        ledger.wf(),
        ledger.set_price_outcome(sender, id, new_price) is Ok,
    ensures
        ledger.set_price_outcome(sender, id, new_price).unwrap().wf(),
{
}

/// In a consistent ledger every kitty can be taken out of the array of its
/// owner: no transfer reports `Inconsistent`.
pub proof fn lemma_owned_kitty_is_removable(ledger: ModuleView, id: KittyId)
    requires
        ledger.wf(),
        ledger.kitty_owner.contains_key(id),
    ensures
        ledger.owned_kitties.removable(ledger.kitty_owner[id], id),
{
    let owner = ledger.kitty_owner[id];
    let last = (ledger.owned_kitties.count_of(owner) - 1) as u64;
    assert(ledger.owned_kitties.array.contains_key((owner, last)));
}

/// Moving a kitty keeps a consistent ledger consistent.
pub proof fn lemma_transfer_keeps_wf(ledger: ModuleView, from: AccountId, to: AccountId, id: KittyId)
    requires
        ledger.wf(),
        ledger.transfer_from_outcome(from, to, id) is Ok,
    ensures
        ledger.move_kitty(from, to, id).wf(),
{
    let next = ledger.move_kitty(from, to, id);
    assert(next.owned_wf());
}

/// Buying a kitty keeps a consistent ledger consistent.
pub proof fn lemma_buy_keeps_wf(
    ledger: ModuleView,
    sender: AccountId,
    id: KittyId,
    max_price: Balance,
    paid: bool,
)
    requires
        ledger.wf(),
        ledger.buy_kitty_outcome(sender, id, max_price, paid) is Ok,
    ensures
        ledger.buy_kitty_outcome(sender, id, max_price, paid).unwrap().wf(),
{
    let seller = ledger.kitty_owner[id];
    lemma_transfer_keeps_wf(ledger, seller, sender, id);
}

/// Every successful call keeps a consistent ledger consistent.
pub proof fn lemma_apply_keeps_wf(ledger: ModuleView, call: Call)
    requires
        ledger.wf(),
        ledger.apply(call) is Ok,
    ensures
        ledger.apply(call).unwrap().wf(),
{
    match call {
        Call::CreateKitty { sender, random_seed } => {
            let id = spec_derive_identifier(random_seed, sender, ledger.nonce);
            lemma_mint_keeps_wf(ledger, sender, id, Kitty::newborn(id));
        },
        Call::Mint { to, kitty_id, new_kitty } => {
            lemma_mint_keeps_wf(ledger, to, kitty_id, new_kitty);
        },
        Call::SetPrice { sender, kitty_id, new_price } => {
            lemma_set_price_keeps_wf(ledger, sender, kitty_id, new_price);
        },
        Call::Transfer { sender, to, kitty_id } => {
            lemma_transfer_keeps_wf(ledger, sender, to, kitty_id);
        },
        Call::TransferFrom { from, to, kitty_id } => {
            lemma_transfer_keeps_wf(ledger, from, to, kitty_id);
        },
        Call::BuyKitty { sender, kitty_id, max_price, paid } => {
            lemma_buy_keeps_wf(ledger, sender, kitty_id, max_price, paid);
        },
    }
}

/// Whatever calls are made, in whatever order and whether they succeed or
/// not, a consistent ledger stays consistent.
pub proof fn lemma_run_keeps_wf(ledger: ModuleView, calls: Seq<Call>)
    requires
        ledger.wf(),
    ensures
        ledger.after(calls).wf(),
    decreases calls.len(),
{
    if calls.len() > 0 {
        lemma_run_keeps_wf(ledger, calls.drop_last());
        let before = ledger.after(calls.drop_last());
        if before.apply(calls.last()) is Ok {
            lemma_apply_keeps_wf(before, calls.last());
        }
    }
}

// The enumeration of all kitties.

/// In a consistent ledger the count of all kitties is the number of kitties
/// that exist, and the enumeration maps the positions below the count
/// one-to-one onto them.
pub proof fn lemma_count_is_number_of_kitties(ledger: ModuleView)
    requires
        ledger.wf(),
    ensures
        ledger.kitties.dom().finite(),
        ledger.kitties.dom().len() == ledger.all_kitties.count,
        forall|i: u64| i < ledger.all_kitties.count <==> ledger.all_kitties.array.contains_key(i),
        forall|i: u64|
            i < ledger.all_kitties.count ==> ledger.kitties.contains_key(
                #[trigger] ledger.all_kitties.array[i],
            ),
        forall|i: u64, j: u64|
            i < ledger.all_kitties.count && j < ledger.all_kitties.count
                && ledger.all_kitties.array[i] == ledger.all_kitties.array[j] ==> i == j,
        forall|id: KittyId|
            ledger.kitties.contains_key(id) ==> exists|i: u64|
                i < ledger.all_kitties.count && #[trigger] ledger.all_kitties.array[i] == id,
{
    ledger.all_kitties.lemma_count_is_number_of_ids();
    assert(ledger.all_kitties.ids() =~= ledger.kitties.dom());
    assert forall|i: u64| i < ledger.all_kitties.count implies ledger.kitties.contains_key(
        #[trigger] ledger.all_kitties.array[i],
    ) by {
        assert(ledger.all_kitties.index.contains_key(ledger.all_kitties.array[i]));
    }
    assert forall|id: KittyId| ledger.kitties.contains_key(id) implies exists|i: u64|
        i < ledger.all_kitties.count && #[trigger] ledger.all_kitties.array[i] == id by {
        assert(ledger.all_kitties.ids().contains(id));
    }
}

/// The count of all kitties grows by one with every call that mints, and
/// with no other.
pub proof fn lemma_count_grows_by_mints(ledger: ModuleView, calls: Seq<Call>)
    ensures
        ledger.after(calls).all_kitties.count == ledger.all_kitties.count + ledger.mints_in(calls),
    decreases calls.len(),
{
    if calls.len() > 0 {
        lemma_count_grows_by_mints(ledger, calls.drop_last());
    }
}

/// After any run of calls on the empty ledger, the count of all kitties is
/// the number of successful mints, it is the number of kitties that exist,
/// and the enumeration maps the positions below the count one-to-one onto
/// the kitties that exist.
pub proof fn lemma_all_kitties_enumerates_all_mints(calls: Seq<Call>)
    ensures
        ({
            let ledger = ModuleView::empty().after(calls);
            &&& ledger.all_kitties.count == ModuleView::empty().mints_in(calls)
            &&& ledger.kitties.dom().finite()
            &&& ledger.kitties.dom().len() == ledger.all_kitties.count
            &&& forall|i: u64|
                i < ledger.all_kitties.count <==> ledger.all_kitties.array.contains_key(i)
            &&& forall|i: u64|
                i < ledger.all_kitties.count ==> ledger.kitties.contains_key(
                    #[trigger] ledger.all_kitties.array[i],
                )
            &&& forall|i: u64, j: u64|
                i < ledger.all_kitties.count && j < ledger.all_kitties.count
                    && ledger.all_kitties.array[i] == ledger.all_kitties.array[j] ==> i == j
            &&& forall|id: KittyId|
                ledger.kitties.contains_key(id) ==> exists|i: u64|
                    i < ledger.all_kitties.count && #[trigger] ledger.all_kitties.array[i] == id
        }),
{
    let start = ModuleView::empty();
    let ledger = start.after(calls);
    assert(start.wf());
    lemma_run_keeps_wf(start, calls);
    lemma_count_grows_by_mints(start, calls);
    lemma_count_is_number_of_kitties(ledger);
}

// The enumeration of each owner's kitties.

/// In a consistent ledger an owner's count is the number of kitties that the
/// owner owns, every such kitty stands in the owner's array in the slot that
/// the index gives for it, and the owner's array holds nothing else: its
/// slots below the count are filled with exactly these kitties, each once,
/// and no slot from the count on is filled.
pub proof fn lemma_owned_count_is_number_owned(ledger: ModuleView, owner: AccountId)
    requires
        ledger.wf(),
    ensures
        ledger.kitties_of(owner).finite(),
        ledger.kitties_of(owner).len() == ledger.owned_kitties.count_of(owner),
        forall|id: KittyId|
            ledger.kitties_of(owner).contains(id) ==> ledger.owned_kitties.index[id]
                < ledger.owned_kitties.count_of(owner) && ledger.owned_kitties.array[(
                owner,
                ledger.owned_kitties.index[id],
            )] == id,
        forall|slot: u64|
            slot < ledger.owned_kitties.count_of(owner)
                <==> ledger.owned_kitties.array.contains_key((owner, slot)),
        forall|slot: u64|
            slot < ledger.owned_kitties.count_of(owner) ==> ledger.kitties_of(owner).contains(
                #[trigger] ledger.owned_kitties.array[(owner, slot)],
            ),
        forall|s: u64, t: u64|
            s < ledger.owned_kitties.count_of(owner) && t < ledger.owned_kitties.count_of(owner)
                && ledger.owned_kitties.array[(owner, s)] == ledger.owned_kitties.array[(owner, t)]
                ==> s == t,
{
    let owned = ledger.owned_kitties;
    let count = owned.count_of(owner);
    let slots = set_int_range(0, count as int);
    let at = |s: int| owned.array[(owner, s as u64)];
    lemma_int_range(0, count as int);
    assert forall|s: u64| s < count implies ledger.kitties_of(owner).contains(
        #[trigger] owned.array[(owner, s)],
    ) && owned.index[owned.array[(owner, s)]] == s by {
        let k = (owner, s);
        assert(k.1 < owned.count_of(k.0));
        assert(ledger.kitty_owner.contains_key(owned.array[k]));
    }
    assert forall|s: int, t: int|
        slots.contains(s) && slots.contains(t) && #[trigger] at(s) == #[trigger] at(t) implies s
        == t by {
        assert(owned.index[owned.array[(owner, s as u64)]] == s as u64);
        assert(owned.index[owned.array[(owner, t as u64)]] == t as u64);
    }
    assert(slots.map(at) =~= ledger.kitties_of(owner)) by {
        assert forall|id: KittyId| ledger.kitties_of(owner).contains(id) implies slots.map(
            at,
        ).contains(id) by {
            let s = owned.index[id];
            assert(slots.contains(s as int) && at(s as int) == id);
        }
        assert forall|id: KittyId| slots.map(at).contains(id) implies ledger.kitties_of(
            owner,
        ).contains(id) by {
            let s = choose|s: int| slots.contains(s) && at(s) == id;
            assert(ledger.kitties_of(owner).contains(owned.array[(owner, s as u64)]));
        }
    }
    lemma_map_size(slots, ledger.kitties_of(owner), at);
    assert forall|slot: u64| slot < count <==> owned.array.contains_key((owner, slot)) by {
        let k = (owner, slot);
        assert(owned.array.contains_key(k) <==> k.1 < owned.count_of(k.0));
    }
    assert forall|s: u64, t: u64|
        s < count && t < count && owned.array[(owner, s)] == owned.array[(owner, t)] implies s
        == t by {
        assert(owned.index[owned.array[(owner, s)]] == s);
        assert(owned.index[owned.array[(owner, t)]] == t);
    }
}

/// After any run of calls on the empty ledger, every owner's count is the
/// number of kitties owned, and the owner's array holds exactly these, in
/// the slots below the count.
pub proof fn lemma_owned_kitties_enumerates_what_is_owned(calls: Seq<Call>, owner: AccountId)
    ensures
        ({
            let ledger = ModuleView::empty().after(calls);
            &&& ledger.kitties_of(owner).finite()
            &&& ledger.kitties_of(owner).len() == ledger.owned_kitties.count_of(owner)
            &&& forall|id: KittyId|
                ledger.kitties_of(owner).contains(id) ==> ledger.owned_kitties.index[id]
                    < ledger.owned_kitties.count_of(owner) && ledger.owned_kitties.array[(
                    owner,
                    ledger.owned_kitties.index[id],
                )] == id
            &&& forall|slot: u64|
                slot < ledger.owned_kitties.count_of(owner)
                    <==> ledger.owned_kitties.array.contains_key((owner, slot))
        }),
{
    let start = ModuleView::empty();
    assert(start.wf());
    lemma_run_keeps_wf(start, calls);
    lemma_owned_count_is_number_owned(start.after(calls), owner);
}

/// Giving a kitty away and getting it back restores who owns what and how
/// many kitties each of the two holds, and leaves the ledger consistent, so
/// no slot from the count on is filled. The second transfer cannot fail.
pub proof fn lemma_transfer_round_trip(ledger: ModuleView, a: AccountId, b: AccountId, id: KittyId)
    requires
        ledger.wf(),
        ledger.transfer_from_outcome(a, b, id) is Ok,
    ensures
        ({
            let there = ledger.transfer_from_outcome(a, b, id).unwrap();
            &&& there.kitty_owner[id] == b
            &&& there.transfer_from_outcome(b, a, id) is Ok
            &&& ({
                let back = there.transfer_from_outcome(b, a, id).unwrap();
                &&& back.wf()
                &&& back.kitty_owner == ledger.kitty_owner
                &&& back.kitties == ledger.kitties
                &&& back.owned_kitties.count_of(a) == ledger.owned_kitties.count_of(a)
                &&& back.owned_kitties.count_of(b) == ledger.owned_kitties.count_of(b)
                &&& forall|slot: u64|
                    back.owned_kitties.array.contains_key((a, slot)) <==> slot
                        < ledger.owned_kitties.count_of(a)
            })
        }),
{
    let there = ledger.move_kitty(a, b, id);
    lemma_transfer_keeps_wf(ledger, a, b, id);
    lemma_owned_kitty_is_removable(there, id);
    let back = there.move_kitty(b, a, id);
    lemma_transfer_keeps_wf(there, b, a, id);
    assert(back.kitty_owner =~= ledger.kitty_owner);
    assert forall|slot: u64|
        back.owned_kitties.array.contains_key((a, slot)) <==> slot < ledger.owned_kitties.count_of(
            a,
        ) by {
        let k = (a, slot);
        assert(back.owned_kitties.array.contains_key(k) <==> k.1 < back.owned_kitties.count_of(k.0));
    }
}

// What never changes.

/// What was minted stays: a call takes no kitty away, leaves the identifier,
/// the dna and the generation of every record as they are, never shortens
/// the enumeration of all kitties and never changes a position that is in
/// use.
pub proof fn lemma_call_keeps_what_was_minted(ledger: ModuleView, call: Call)
    requires
        ledger.apply(call) is Ok,
    ensures
        ({
            let next = ledger.apply(call).unwrap();
            &&& forall|id: KittyId| #[trigger]
                ledger.kitties.contains_key(id) ==> next.kitties.contains_key(id)
                    && next.kitties[id].id == ledger.kitties[id].id && next.kitties[id].dna
                    == ledger.kitties[id].dna && next.kitties[id].gen == ledger.kitties[id].gen
            &&& forall|id: KittyId| #[trigger]
                ledger.kitty_owner.contains_key(id) ==> next.kitty_owner.contains_key(id)
            &&& next.all_kitties.count >= ledger.all_kitties.count
            &&& forall|i: u64|
                i < ledger.all_kitties.count && #[trigger] ledger.all_kitties.array.contains_key(i)
                    ==> next.all_kitties.array.contains_key(i) && next.all_kitties.array[i]
                    == ledger.all_kitties.array[i]
        }),
{
}

/// Only the owner's pricing and a purchase change a price: the one sets it
/// to what the owner asks, the other to zero.
pub proof fn lemma_price_changes(ledger: ModuleView, call: Call, id: KittyId)
    requires
        ledger.apply(call) is Ok,
        ledger.kitties.contains_key(id),
    ensures
        ({
            let next = ledger.apply(call).unwrap();
            next.kitties[id].price == match call {
                Call::SetPrice { sender, kitty_id, new_price } if kitty_id == id => new_price,
                Call::BuyKitty { sender, kitty_id, max_price, paid } if kitty_id == id => 0,
                _ => ledger.kitties[id].price,
            }
        }),
{
}

} // verus!
