//! The behaviour the registry promises beyond the basic operations:
//! atomicity of failing calls, delisting on every ownership change,
//! strictly increasing identifiers, deterministic breeding, the genesis
//! loader, and the exact balance movements of a sale.

use kitties::kitty::combine_dna;
use kitties::{Config, Entropy, Error, Event, GenesisConfig, Ledger, LedgerError, Pallet};

fn new_test_ext() -> (Pallet, Ledger, Entropy) {
    let mut pallet = Pallet::new(Config { reserve_per_kitty: 1000 });
    let mut ledger = Ledger::new(1);
    ledger.set_balance(1, 500);
    ledger.set_balance(2, 10_000);
    ledger.set_balance(3, 10_000);
    let genesis = GenesisConfig { kitties: vec![(1, vec![0x11u8; 16]), (2, vec![0x22u8; 16])] };
    genesis.build(&mut pallet);
    let entropy = Entropy { seed: vec![7u8; 32], sequence: 1 };
    (pallet, ledger, entropy)
}

#[test]
fn create_reserves_deposit_and_emits_fact() {
    let (mut pallet, mut ledger, entropy) = new_test_ext();
    let ev = pallet.create(&mut ledger, 3, &entropy).unwrap();
    assert_eq!(ev, Event::KittyCreate(3, 3));
    assert_eq!(ledger.free_balance(3), 9_000);
    assert_eq!(ledger.reserved_balance(3), 1_000);
    assert_eq!(pallet.owner(3), Some(3));
    assert_eq!(pallet.kitties(3).unwrap().price, None);
}

#[test]
fn create_failure_mints_nothing() {
    let (mut pallet, mut ledger, entropy) = new_test_ext();
    assert_eq!(
        pallet.create(&mut ledger, 1, &entropy),
        Err(Error::NotEnoughBalance)
    );
    assert_eq!(pallet.kitties_count(), Some(2));
    assert_eq!(ledger.free_balance(1), 500);
    assert_eq!(ledger.reserved_balance(1), 0);
}

#[test]
fn transfer_by_non_owner_leaves_owner_unchanged() {
    let (mut pallet, _ledger, _entropy) = new_test_ext();
    assert_eq!(pallet.transfer(2, 3, 1), Err(Error::NotOwner));
    assert_eq!(pallet.owner(1), Some(1));
}

#[test]
fn transfer_clears_price() {
    let (mut pallet, _ledger, _entropy) = new_test_ext();
    pallet.set_price(1, 1, Some(100)).expect("should set the price");
    let ev = pallet.transfer(1, 2, 1).unwrap();
    assert_eq!(ev, Event::KittyTransfered(1, 2, 1));
    assert_eq!(pallet.kitties(1).unwrap().price, None);
    assert_eq!(pallet.owner(1), Some(2));
}

#[test]
fn transfer_to_self_still_clears_price() {
    let (mut pallet, _ledger, _entropy) = new_test_ext();
    pallet.set_price(1, 1, Some(50)).expect("should set the price");
    assert!(pallet.transfer(1, 1, 1).is_ok());
    assert_eq!(pallet.owner(1), Some(1));
    assert_eq!(pallet.kitties(1).unwrap().price, None);
}

#[test]
fn buy_below_ask_changes_nothing() {
    let (mut pallet, mut ledger, _entropy) = new_test_ext();
    pallet.set_price(1, 1, Some(100)).expect("should set the price");
    assert_eq!(
        pallet.buy(&mut ledger, 3, 1, 90),
        Err(Error::KittyBidPriceTooLow)
    );
    assert_eq!(pallet.owner(1), Some(1));
    assert_eq!(pallet.kitties(1).unwrap().price, Some(100));
    assert_eq!(ledger.free_balance(1), 500);
    assert_eq!(ledger.free_balance(3), 10_000);
}

#[test]
fn buy_moves_the_bid_and_delists() {
    let (mut pallet, mut ledger, _entropy) = new_test_ext();
    pallet.set_price(1, 1, Some(100)).expect("should set the price");
    let ev = pallet.buy(&mut ledger, 3, 1, 100).unwrap();
    assert_eq!(ev, Event::Bought(3, 1, 1, 100));
    assert_eq!(pallet.owner(1), Some(3));
    assert_eq!(pallet.kitties(1).unwrap().price, None);
    assert_eq!(ledger.free_balance(1), 600);
    assert_eq!(ledger.free_balance(3), 9_900);
}

#[test]
fn buy_pays_the_bid_not_the_ask() {
    let (mut pallet, mut ledger, _entropy) = new_test_ext();
    pallet.set_price(1, 1, Some(100)).expect("should set the price");
    let ev = pallet.buy(&mut ledger, 3, 1, 120).unwrap();
    assert_eq!(ev, Event::Bought(3, 1, 1, 120));
    assert_eq!(ledger.free_balance(1), 620);
    assert_eq!(ledger.free_balance(3), 9_880);
}

#[test]
fn buy_that_would_kill_the_buyer_fails_atomically() {
    let (mut pallet, mut ledger, _entropy) = new_test_ext();
    // the existence threshold is 1, so spending the whole balance is refused
    ledger.set_balance(3, 100);
    pallet.set_price(1, 1, Some(100)).expect("should set the price");
    assert_eq!(
        pallet.buy(&mut ledger, 3, 1, 100),
        Err(Error::BalanceTransferFailed)
    );
    assert_eq!(pallet.owner(1), Some(1));
    assert_eq!(pallet.kitties(1).unwrap().price, Some(100));
    assert_eq!(ledger.free_balance(3), 100);
    assert_eq!(ledger.free_balance(1), 500);
}

#[test]
fn breed_works() {
    let (mut pallet, _ledger, entropy) = new_test_ext();
    let ev = pallet.breed(3, 1, 2, &entropy).unwrap();
    assert_eq!(ev, Event::KittyBreed(3, 3));
    assert_eq!(pallet.owner(3), Some(3));
    let child = pallet.kitties(3).expect("should found the kitty");
    assert_eq!(child.dna.len(), 16);
    assert_eq!(child.price, None);
}

#[test]
fn breed_same_parent() {
    let (mut pallet, _ledger, entropy) = new_test_ext();
    assert_eq!(pallet.breed(1, 1, 1, &entropy), Err(Error::SameParentIndex));
    assert_eq!(pallet.kitties_count(), Some(2));
}

#[test]
fn breed_failed_kitty_not_exist() {
    let (mut pallet, _ledger, entropy) = new_test_ext();
    assert_eq!(pallet.breed(1, 1, 10, &entropy), Err(Error::KittyNotExist));
    assert_eq!(pallet.kitties_count(), Some(2));
}

#[test]
fn breeding_is_deterministic() {
    let (mut pallet_a, _ledger_a, entropy) = new_test_ext();
    let (mut pallet_b, _ledger_b, _entropy) = new_test_ext();
    let same_entropy = Entropy { seed: entropy.seed.clone(), sequence: entropy.sequence };
    pallet_a.breed(1, 1, 2, &entropy).unwrap();
    pallet_b.breed(1, 1, 2, &same_entropy).unwrap();
    assert_eq!(pallet_a.kitties(3).unwrap().dna, pallet_b.kitties(3).unwrap().dna);
}

#[test]
fn crossover_follows_the_bit_formula() {
    let selector = vec![0xF0u8; 16];
    let dna1 = vec![0xAAu8; 16];
    let dna2 = vec![0x55u8; 16];
    // (0xF0 & 0xAA) | (0x0F & 0x55) == 0xA0 | 0x05 == 0xA5
    assert_eq!(combine_dna(&selector, &dna1, &dna2), vec![0xA5u8; 16]);
    // an all-ones selector copies the first parent, an all-zeros selector
    // copies the second
    assert_eq!(
        combine_dna(&vec![0xFFu8; 16], &dna1, &dna2),
        vec![0xAAu8; 16]
    );
    assert_eq!(
        combine_dna(&vec![0x00u8; 16], &dna1, &dna2),
        vec![0x55u8; 16]
    );
}

#[test]
fn allocated_identifiers_strictly_increase() {
    let (mut pallet, mut ledger, entropy) = new_test_ext();
    let first = pallet.create(&mut ledger, 3, &entropy).unwrap();
    let second = pallet.create(&mut ledger, 3, &entropy).unwrap();
    let third = pallet.breed(3, 1, 2, &entropy).unwrap();
    assert_eq!(first, Event::KittyCreate(3, 3));
    assert_eq!(second, Event::KittyCreate(3, 4));
    assert_eq!(third, Event::KittyBreed(3, 5));
    assert_eq!(pallet.kitties_count(), Some(5));
}

#[test]
fn counter_overflow_aborts_without_writes() {
    let (mut pallet, mut ledger, entropy) = new_test_ext();
    pallet.count = Some(u64::MAX);
    assert_eq!(
        pallet.create(&mut ledger, 3, &entropy),
        Err(Error::KittiesCountOverflow)
    );
    // the deposit was not taken either
    assert_eq!(ledger.free_balance(3), 10_000);
    assert_eq!(ledger.reserved_balance(3), 0);
    assert_eq!(
        pallet.breed(3, 1, 2, &entropy),
        Err(Error::KittiesCountOverflow)
    );
    assert!(pallet.kitties(3).is_none());
}

#[test]
fn genesis_build_mints_each_pair_in_order() {
    let mut pallet = Pallet::new(Config { reserve_per_kitty: 7 });
    let genesis = GenesisConfig { kitties: vec![(5, vec![9u8; 16]), (6, vec![4u8; 16])] };
    genesis.build(&mut pallet);
    assert_eq!(pallet.kitties_count(), Some(2));
    assert_eq!(pallet.owner(1), Some(5));
    assert_eq!(pallet.owner(2), Some(6));
    assert_eq!(pallet.kitties(1).unwrap().dna, vec![9u8; 16]);
    assert_eq!(pallet.kitties(2).unwrap().dna, vec![4u8; 16]);
    assert_eq!(pallet.kitties(1).unwrap().price, None);
}

#[test]
fn default_genesis_is_empty() {
    let mut pallet = Pallet::new(Config { reserve_per_kitty: 7 });
    let genesis = GenesisConfig::default();
    genesis.build(&mut pallet);
    assert_eq!(pallet.kitties_count(), None);
    assert_eq!(pallet.owner(1), None);
}

#[test]
fn derived_randomness_is_a_16_byte_function_of_its_inputs() {
    let a = kitties::random::random_value(&Entropy { seed: vec![], sequence: 0 });
    let b = kitties::random::random_value(&Entropy { seed: vec![], sequence: 0 });
    let c = kitties::random::random_value(&Entropy { seed: vec![], sequence: 1 });
    let d = kitties::random::random_value(&Entropy { seed: vec![1], sequence: 0 });
    assert_eq!(a.len(), 16);
    assert_eq!(a, b);
    assert_ne!(a, c);
    assert_ne!(a, d);
}

#[test]
fn ledger_transfer_guards_both_parties() {
    let mut ledger = Ledger::new(10);
    ledger.set_balance(1, 100);
    // receiving less than the existence threshold cannot create an account
    assert_eq!(
        ledger.transfer_keep_alive(1, 9, 5),
        Err(LedgerError::ReceiverBelowMinimum)
    );
    // an overfull receiver is refused rather than wrapped around
    ledger.set_balance(2, u64::MAX);
    assert_eq!(
        ledger.transfer_keep_alive(1, 2, 50),
        Err(LedgerError::Overflow)
    );
    // a payer cannot be emptied below the threshold
    assert_eq!(
        ledger.transfer_keep_alive(1, 9, 95),
        Err(LedgerError::WouldKillSender)
    );
    // a payer cannot spend more than its free balance
    assert_eq!(
        ledger.transfer_keep_alive(1, 2, 200),
        Err(LedgerError::InsufficientBalance)
    );
    assert_eq!(ledger.free_balance(1), 100);
}

#[test]
fn ledger_reserve_moves_free_to_reserved() {
    let mut ledger = Ledger::new(1);
    ledger.set_balance(1, 100);
    assert_eq!(
        ledger.reserve(1, 200),
        Err(LedgerError::InsufficientBalance)
    );
    assert!(ledger.reserve(1, 60).is_ok());
    assert_eq!(ledger.free_balance(1), 40);
    assert_eq!(ledger.reserved_balance(1), 60);
}
