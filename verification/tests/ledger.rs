use std::collections::HashMap;

use substratekitties::identifier::derive_identifier;
use substratekitties::{Error, Event, Kitty, Module, Payment};

const ALICE: u64 = 1;
const BOB: u64 = 2;
const CAROL: u64 = 3;
const SEED: [u8; 32] = [0u8; 32];

fn created(event: Event) -> u128 {
    match event {
        Event::Created(_, id) => id,
        other => panic!("expected Created, got {:?}", other),
    }
}

fn mint_three_for_alice(module: &mut Module) -> (u128, u128, u128) {
    let a = created(module.create_kitty(ALICE, &SEED).unwrap());
    let b = created(module.create_kitty(ALICE, &SEED).unwrap());
    let c = created(module.create_kitty(ALICE, &SEED).unwrap());
    (a, b, c)
}

#[test]
fn new_ledger_is_empty() {
    let module = Module::new();
    assert_eq!(module.all_kitties_count(), 0);
    assert_eq!(module.owned_kitty_count(ALICE), 0);
    assert_eq!(module.nonce, 0);
    assert_eq!(module.kitty(1), Err(Error::NotFound));
    assert_eq!(module.owner_of(1), Err(Error::NotFound));
    assert_eq!(module.kitty_by_index(0), Err(Error::NotFound));
    assert_eq!(module.kitty_of_owner_by_index(ALICE, 0), Err(Error::NotFound));
}

#[test]
fn create_kitty_mints_a_newborn_for_the_sender() {
    let mut module = Module::new();
    let event = module.create_kitty(ALICE, &SEED).unwrap();
    let id = 0x34680b8b8cb29849469da6271a13abec;
    assert_eq!(event, Event::Created(ALICE, id));
    assert_eq!(module.kitty(id), Ok(Kitty { id, dna: id, price: 0, gen: 0 }));
    assert_eq!(module.owner_of(id), Ok(ALICE));
    assert_eq!(module.all_kitties_count(), 1);
    assert_eq!(module.kitty_by_index(0), Ok(id));
    assert_eq!(module.owned_kitty_count(ALICE), 1);
    assert_eq!(module.kitty_of_owner_by_index(ALICE, 0), Ok(id));
    assert_eq!(module.nonce, 1);
}

#[test]
fn create_kitty_uses_the_nonce_of_the_moment() {
    let mut module = Module::new();
    let first = created(module.create_kitty(ALICE, &SEED).unwrap());
    let second = created(module.create_kitty(ALICE, &SEED).unwrap());
    let third = created(module.create_kitty(BOB, &SEED).unwrap());
    assert_eq!(first, derive_identifier(&SEED, ALICE, 0));
    assert_eq!(second, derive_identifier(&SEED, ALICE, 1));
    assert_eq!(third, derive_identifier(&SEED, BOB, 2));
    assert_eq!(second, 0xe3c44a06f0f2bcf64964cda3d680b23d);
    assert_eq!(module.nonce, 3);
}

#[test]
fn next_identifier_tells_what_create_kitty_will_mint() {
    let mut module = Module::new();
    let expected = module.next_identifier(ALICE, &SEED).unwrap();
    let id = created(module.create_kitty(ALICE, &SEED).unwrap());
    assert_eq!(id, expected);
    assert_ne!(module.next_identifier(ALICE, &SEED), Ok(expected));
}

#[test]
fn create_kitty_on_a_taken_identifier_is_a_collision() {
    let mut module = Module::new();
    let id = module.next_identifier(ALICE, &SEED).unwrap();
    assert_eq!(module.mint(BOB, id, Kitty::newborn(id)), Ok(Event::Created(BOB, id)));
    let before = module.clone();
    assert_eq!(module.next_identifier(ALICE, &SEED), Err(Error::IdentifierCollision));
    assert_eq!(module.create_kitty(ALICE, &SEED), Err(Error::IdentifierCollision));
    assert_eq!(module, before);
    assert_eq!(module.nonce, 0);
}

#[test]
fn mint_stores_the_record_it_is_given() {
    let mut module = Module::new();
    let record = Kitty { id: 42, dna: 43, price: 7, gen: 0 };
    assert_eq!(module.mint(ALICE, 42, record), Ok(Event::Created(ALICE, 42)));
    assert_eq!(module.kitty(42), Ok(record));
    assert_eq!(module.owner_of(42), Ok(ALICE));
    assert_eq!(module.kitty_by_index(0), Ok(42));
    assert_eq!(module.kitty_of_owner_by_index(ALICE, 0), Ok(42));
    assert_eq!(module.nonce, 0);
}

#[test]
fn mint_of_an_owned_identifier_is_a_collision() {
    let mut module = Module::new();
    module.mint(ALICE, 42, Kitty::newborn(42)).unwrap();
    let before = module.clone();
    assert_eq!(module.mint_check(BOB, 42), Err(Error::IdentifierCollision));
    assert_eq!(module.mint(BOB, 42, Kitty::newborn(42)), Err(Error::IdentifierCollision));
    assert_eq!(module, before);
}

#[test]
fn mint_over_a_stored_record_without_owner_already_exists() {
    let mut module = Module::new();
    module.kitties.insert(42, Kitty::newborn(42)).unwrap();
    let before = module.clone();
    assert_eq!(module.mint(ALICE, 42, Kitty::newborn(42)), Err(Error::AlreadyExists));
    assert_eq!(module, before);
}

#[test]
fn mint_under_saturated_global_count_overflows() {
    let mut module = Module::new();
    module.all_kitties.count = u64::MAX;
    let before = module.clone();
    assert_eq!(module.mint(ALICE, 42, Kitty::newborn(42)), Err(Error::CounterOverflow));
    assert_eq!(module, before);
    assert_eq!(module.create_kitty(ALICE, &SEED), Err(Error::CounterOverflow));
    assert_eq!(module, before);
}

#[test]
fn mint_under_saturated_owner_count_overflows() {
    let mut module = Module::new();
    module.owned_kitties.count.insert(ALICE, u64::MAX);
    let before = module.clone();
    assert_eq!(module.mint(ALICE, 42, Kitty::newborn(42)), Err(Error::CounterOverflow));
    assert_eq!(module, before);
    assert_eq!(module.create_kitty(ALICE, &SEED), Err(Error::CounterOverflow));
    assert_eq!(module, before);
    // another owner is not affected
    assert_eq!(module.mint(BOB, 42, Kitty::newborn(42)), Ok(Event::Created(BOB, 42)));
}

#[test]
fn create_kitty_under_saturated_nonce_overflows() {
    let mut module = Module::new();
    module.nonce = u64::MAX;
    let before = module.clone();
    assert_eq!(module.create_kitty(ALICE, &SEED), Err(Error::CounterOverflow));
    assert_eq!(module, before);
}

#[test]
fn set_price_by_owner_lists_the_kitty() {
    let mut module = Module::new();
    let id = created(module.create_kitty(ALICE, &SEED).unwrap());
    assert_eq!(module.set_price(ALICE, id, 100), Ok(Event::PriceSet(ALICE, id, 100)));
    assert_eq!(module.kitty(id), Ok(Kitty { id, dna: id, price: 100, gen: 0 }));
    assert_eq!(module.set_price(ALICE, id, 0), Ok(Event::PriceSet(ALICE, id, 0)));
    assert_eq!(module.kitty(id).unwrap().price, 0);
}

#[test]
fn set_price_by_non_owner_is_refused_and_price_stays() {
    let mut module = Module::new();
    let id = created(module.create_kitty(ALICE, &SEED).unwrap());
    module.set_price(ALICE, id, 100).unwrap();
    let before = module.clone();
    assert_eq!(module.set_price(BOB, id, 1), Err(Error::NotOwner));
    assert_eq!(module.kitty(id).unwrap().price, 100);
    assert_eq!(module, before);
}

#[test]
fn set_price_of_unminted_kitty_is_not_found() {
    let mut module = Module::new();
    let before = module.clone();
    assert_eq!(module.set_price(ALICE, 5, 100), Err(Error::NotFound));
    assert_eq!(module, before);
}

#[test]
fn transfer_moves_ownership_and_both_enumerations() {
    let mut module = Module::new();
    let (a, b, c) = mint_three_for_alice(&mut module);
    assert_eq!(module.transfer(ALICE, BOB, a), Ok(Event::Transferred(ALICE, BOB, a)));
    assert_eq!(module.owner_of(a), Ok(BOB));
    assert_eq!(module.owned_kitty_count(ALICE), 2);
    assert_eq!(module.owned_kitty_count(BOB), 1);
    assert_eq!(module.kitty_of_owner_by_index(ALICE, 0), Ok(c));
    assert_eq!(module.kitty_of_owner_by_index(ALICE, 1), Ok(b));
    assert_eq!(module.kitty_of_owner_by_index(ALICE, 2), Err(Error::NotFound));
    assert_eq!(module.kitty_of_owner_by_index(BOB, 0), Ok(a));
    // the global enumeration does not change
    assert_eq!(module.all_kitties_count(), 3);
    assert_eq!(module.kitty_by_index(0), Ok(a));
    assert_eq!(module.kitty_by_index(1), Ok(b));
    assert_eq!(module.kitty_by_index(2), Ok(c));
}

#[test]
fn transfer_by_non_owner_is_refused() {
    let mut module = Module::new();
    let id = created(module.create_kitty(ALICE, &SEED).unwrap());
    let before = module.clone();
    assert_eq!(module.transfer(BOB, CAROL, id), Err(Error::NotOwner));
    assert_eq!(module.transfer_from(BOB, CAROL, id), Err(Error::NotOwner));
    assert_eq!(module, before);
}

#[test]
fn transfer_of_unminted_kitty_is_not_found() {
    let mut module = Module::new();
    let before = module.clone();
    assert_eq!(module.transfer(ALICE, BOB, 5), Err(Error::NotFound));
    assert_eq!(module.transfer_from(ALICE, BOB, 5), Err(Error::NotFound));
    assert_eq!(module, before);
}

#[test]
fn transfer_to_a_saturated_owner_overflows() {
    let mut module = Module::new();
    let id = created(module.create_kitty(ALICE, &SEED).unwrap());
    module.owned_kitties.count.insert(BOB, u64::MAX);
    let before = module.clone();
    assert_eq!(module.transfer(ALICE, BOB, id), Err(Error::CounterOverflow));
    assert_eq!(module, before);
    assert_eq!(module.owner_of(id), Ok(ALICE));
}

#[test]
fn transfer_on_a_broken_enumeration_is_inconsistent() {
    let mut module = Module::new();
    let id = created(module.create_kitty(ALICE, &SEED).unwrap());
    module.owned_kitties.count.insert(ALICE, 0);
    let before = module.clone();
    assert_eq!(module.transfer(ALICE, BOB, id), Err(Error::Inconsistent));
    assert_eq!(module, before);
}

#[test]
fn transfer_to_oneself_keeps_the_count() {
    let mut module = Module::new();
    let (a, b, c) = mint_three_for_alice(&mut module);
    assert_eq!(module.transfer(ALICE, ALICE, a), Ok(Event::Transferred(ALICE, ALICE, a)));
    assert_eq!(module.owner_of(a), Ok(ALICE));
    assert_eq!(module.owned_kitty_count(ALICE), 3);
    assert_eq!(module.kitty_of_owner_by_index(ALICE, 0), Ok(c));
    assert_eq!(module.kitty_of_owner_by_index(ALICE, 1), Ok(b));
    assert_eq!(module.kitty_of_owner_by_index(ALICE, 2), Ok(a));
    assert_eq!(module.kitty_of_owner_by_index(ALICE, 3), Err(Error::NotFound));
}

#[test]
fn payment_due_is_the_listed_price_to_the_owner() {
    let mut module = Module::new();
    let id = created(module.create_kitty(ALICE, &SEED).unwrap());
    module.set_price(ALICE, id, 100).unwrap();
    assert_eq!(
        module.payment_due(BOB, id, 100),
        Ok(Payment { from: BOB, to: ALICE, amount: 100 })
    );
    assert_eq!(
        module.payment_due(BOB, id, 1000),
        Ok(Payment { from: BOB, to: ALICE, amount: 100 })
    );
}

#[test]
fn buying_an_unminted_kitty_is_not_found() {
    let mut module = Module::new();
    assert_eq!(module.payment_due(BOB, 5, 100), Err(Error::NotFound));
    assert_eq!(module.buy_kitty(BOB, 5, 100, true), Err(Error::NotFound));
}

#[test]
fn buying_ones_own_kitty_is_a_self_trade() {
    let mut module = Module::new();
    let id = created(module.create_kitty(ALICE, &SEED).unwrap());
    module.set_price(ALICE, id, 100).unwrap();
    let before = module.clone();
    assert_eq!(module.payment_due(ALICE, id, 100), Err(Error::SelfTrade));
    assert_eq!(module.buy_kitty(ALICE, id, 100, true), Err(Error::SelfTrade));
    assert_eq!(module, before);
}

#[test]
fn buying_an_unlisted_kitty_is_not_for_sale() {
    let mut module = Module::new();
    let id = created(module.create_kitty(ALICE, &SEED).unwrap());
    let before = module.clone();
    assert_eq!(module.payment_due(BOB, id, 100), Err(Error::NotForSale));
    assert_eq!(module.buy_kitty(BOB, id, 100, true), Err(Error::NotForSale));
    assert_eq!(module, before);
}

#[test]
fn buying_below_the_listed_price_is_price_exceeded() {
    let mut module = Module::new();
    let id = created(module.create_kitty(ALICE, &SEED).unwrap());
    module.set_price(ALICE, id, 100).unwrap();
    let before = module.clone();
    assert_eq!(module.payment_due(BOB, id, 99), Err(Error::PriceExceeded));
    assert_eq!(module.buy_kitty(BOB, id, 99, true), Err(Error::PriceExceeded));
    assert_eq!(module, before);
}

#[test]
fn buying_without_payment_fails_and_changes_nothing() {
    let mut module = Module::new();
    let id = created(module.create_kitty(ALICE, &SEED).unwrap());
    module.set_price(ALICE, id, 100).unwrap();
    let before = module.clone();
    assert_eq!(module.buy_kitty(BOB, id, 100, false), Err(Error::PaymentFailed));
    assert_eq!(module, before);
    assert_eq!(module.owner_of(id), Ok(ALICE));
    assert_eq!(module.kitty(id).unwrap().price, 100);
}

#[test]
fn buying_for_a_saturated_buyer_asks_for_no_payment() {
    let mut module = Module::new();
    let id = created(module.create_kitty(ALICE, &SEED).unwrap());
    module.set_price(ALICE, id, 100).unwrap();
    module.owned_kitties.count.insert(BOB, u64::MAX);
    let before = module.clone();
    assert_eq!(module.payment_due(BOB, id, 100), Err(Error::CounterOverflow));
    assert_eq!(module.buy_kitty(BOB, id, 100, true), Err(Error::CounterOverflow));
    assert_eq!(module.buy_kitty(BOB, id, 100, false), Err(Error::PaymentFailed));
    assert_eq!(module, before);
}

#[test]
fn buying_on_a_broken_enumeration_is_inconsistent() {
    let mut module = Module::new();
    let id = created(module.create_kitty(ALICE, &SEED).unwrap());
    module.set_price(ALICE, id, 100).unwrap();
    module.owned_kitties.index.remove(&id);
    let before = module.clone();
    assert_eq!(module.payment_due(BOB, id, 100), Err(Error::Inconsistent));
    assert_eq!(module.buy_kitty(BOB, id, 100, true), Err(Error::Inconsistent));
    assert_eq!(module, before);
}

#[test]
fn purchase_moves_the_kitty_and_delists_it() {
    let mut module = Module::new();
    let mut balances: HashMap<u64, u128> = HashMap::new();
    balances.insert(ALICE, 10);
    balances.insert(BOB, 250);
    let id = created(module.create_kitty(ALICE, &SEED).unwrap());
    module.set_price(ALICE, id, 100).unwrap();

    let payment = module.payment_due(BOB, id, 100).unwrap();
    assert_eq!(payment, Payment { from: BOB, to: ALICE, amount: 100 });
    let paid = balances[&payment.from] >= payment.amount;
    if paid {
        *balances.get_mut(&payment.from).unwrap() -= payment.amount;
        *balances.get_mut(&payment.to).unwrap() += payment.amount;
    }
    assert_eq!(
        module.buy_kitty(BOB, id, 100, paid),
        Ok(Event::Bought(BOB, ALICE, id, 100))
    );

    assert_eq!(balances[&ALICE], 110);
    assert_eq!(balances[&BOB], 150);
    assert_eq!(module.owner_of(id), Ok(BOB));
    assert_eq!(module.kitty(id), Ok(Kitty { id, dna: id, price: 0, gen: 0 }));
    assert_eq!(module.owned_kitty_count(ALICE), 0);
    assert_eq!(module.owned_kitty_count(BOB), 1);
    assert_eq!(module.kitty_of_owner_by_index(BOB, 0), Ok(id));
    assert_eq!(module.kitty_of_owner_by_index(ALICE, 0), Err(Error::NotFound));

    // the kitty is off the market now
    assert_eq!(module.payment_due(CAROL, id, 100), Err(Error::NotForSale));
    assert_eq!(module.buy_kitty(CAROL, id, 100, true), Err(Error::NotForSale));
    assert_eq!(module.payment_due(ALICE, id, 100), Err(Error::NotForSale));
    assert_eq!(module.payment_due(BOB, id, 100), Err(Error::SelfTrade));
    assert_eq!(module.owner_of(id), Ok(BOB));
}
