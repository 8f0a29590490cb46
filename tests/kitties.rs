use kitties::currency::{AccountData, CurrencyError, Ledger};
use kitties::dna::{mix_dna, random_value};
use kitties::pallet::{Config, Error, Event, Kitty, Pallet};

fn new_test_ext() -> Pallet {
    let mut balances = Ledger::new(1);
    balances.set_free_balance(1, 10_000);
    balances.set_free_balance(2, 20_000);
    balances.set_free_balance(3, 30_000);
    Pallet::new(
        Config {
            kitty_reserve: 1_000,
            max_kitty_index: u32::MAX,
        },
        balances,
    )
}

const SEED_ZERO_WHO_ONE: [u8; 16] = [
    94, 85, 93, 3, 146, 178, 228, 254, 65, 171, 235, 35, 69, 153, 176, 209,
];

#[test]
fn it_works_for_create_kitties() {
    let mut p = new_test_ext();
    assert_eq!(p.create(1), Ok(0));
    assert_eq!(p.last_event(), Some(Event::KittyCreate(1, 0)));
    assert_eq!(p.kitties_count(), 1);
    assert_eq!(p.owner(0), Some(1));
    assert_eq!(p.balances.reserved_balance(1), 1_000);
}

#[test]
fn can_create_fail_money_no_enough() {
    let mut p = new_test_ext();
    assert_eq!(p.create(100), Err(Error::MoneyNoEnough));
    assert_eq!(p.kitties_count(), 0);
    assert_eq!(p.last_event(), None);
}

#[test]
fn can_transfer_ok() {
    let mut p = new_test_ext();
    assert_eq!(p.create(1), Ok(0));
    assert_eq!(p.kitties_count(), 1);
    assert_eq!(p.balances.reserved_balance(1), 1_000);
    assert_eq!(p.transfer(1, 2, 0), Ok(()));
    assert_eq!(p.last_event(), Some(Event::KittyTransfer(1, 2, 0)));
    assert_eq!(p.balances.reserved_balance(1), 0);
    assert_eq!(p.balances.reserved_balance(2), 1_000);
}

#[test]
fn transfer_failed_no_owner() {
    let mut p = new_test_ext();
    assert_eq!(p.transfer(1, 2, 99), Err(Error::NotOwner));
}

#[test]
fn transfer_money_no_enough() {
    let mut p = new_test_ext();
    assert_eq!(p.create(99), Err(Error::MoneyNoEnough));
}

#[test]
fn transfer_already_owner() {
    let mut p = new_test_ext();
    assert_eq!(p.transfer(1, 1, 0), Err(Error::AlreadyOwned));
}

#[test]
fn can_bread_work() {
    let mut p = new_test_ext();
    assert_eq!(p.create(1), Ok(0));
    assert_eq!(p.create(1), Ok(1));
    assert_eq!(p.kitties_count(), 2);
    assert_eq!(p.owner(0), Some(1));
    assert_eq!(p.owner(1), Some(1));
    assert_eq!(p.balances.reserved_balance(1), 2_000);
    assert_eq!(p.breed(1, 0, 1), Ok(2));
    assert_eq!(p.last_event(), Some(Event::KittyCreate(1, 2)));
    assert_eq!(p.kitties_count(), 3);
    assert_eq!(p.owner(2), Some(1));
    assert_eq!(p.balances.reserved_balance(1), 3_000);
}

#[test]
fn can_bread_fail_same_parent() {
    let mut p = new_test_ext();
    assert_eq!(p.breed(1, 1, 1), Err(Error::SameParentIndex));
}

#[test]
fn can_bread_fail_invaild_kittyindex() {
    let mut p = new_test_ext();
    assert_eq!(p.breed(1, 0, 1), Err(Error::InvalidKittyIndex));
}

#[test]
fn can_sale_work() {
    let mut p = new_test_ext();
    assert_eq!(p.create(1), Ok(0));
    assert_eq!(p.sale(1, 0, Some(2_000)), Ok(()));
    assert_eq!(p.last_event(), Some(Event::KittySale(1, 0, Some(2_000))));
}

#[test]
fn can_sale_fail_no_owner() {
    let mut p = new_test_ext();
    assert_eq!(p.sale(1, 0, Some(2_000)), Err(Error::NotOwner));
}

#[test]
fn can_buy_work() {
    let mut p = new_test_ext();
    assert_eq!(p.create(1), Ok(0));
    assert_eq!(p.sale(1, 0, Some(2_000)), Ok(()));
    assert_eq!(p.owner(0), Some(1));
    assert_eq!(p.kitty_prices(0), Some(2_000));
    assert_eq!(p.buy(2, 0), Ok(()));
    assert_eq!(p.last_event(), Some(Event::KittyBuy(2, 0, Some(2_000))));
    assert_eq!(p.balances.free_balance(1), 10_000 + 2_000);
    assert_eq!(p.balances.free_balance(2), 20_000 - 2_000 - 1_000);
    assert_eq!(p.balances.reserved_balance(1), 0);
    assert_eq!(p.balances.reserved_balance(2), 1_000);
    assert_eq!(p.owner(0), Some(2));
    assert_eq!(p.kitty_prices(0), None);
}

#[test]
fn can_buy_fail_no_owner() {
    let mut p = new_test_ext();
    assert_eq!(p.buy(1, 99), Err(Error::NotOwner));
}

#[test]
fn can_buy_fail_no_sale() {
    let mut p = new_test_ext();
    assert_eq!(p.create(1), Ok(0));
    assert_eq!(p.buy(2, 0), Err(Error::NoSale));
}

#[test]
fn can_buy_fail_already_owner() {
    let mut p = new_test_ext();
    assert_eq!(p.create(1), Ok(0));
    assert_eq!(p.sale(1, 0, Some(3_000)), Ok(()));
    assert_eq!(p.buy(1, 0), Err(Error::AlreadyOwned));
}

#[test]
fn create_draws_genome_from_entropy() {
    let mut p = new_test_ext();
    assert_eq!(p.create(1), Ok(0));
    assert_eq!(p.kitties(0), Some(Kitty(SEED_ZERO_WHO_ONE)));
    assert_eq!(p.kitties(1), None);
}

#[test]
fn random_value_hashes_encoded_context() {
    assert_eq!(random_value(&[0u8; 32], 1, None), SEED_ZERO_WHO_ONE);
    assert_eq!(
        random_value(&[7u8; 32], 2, Some(3)),
        [121, 6, 148, 109, 0, 68, 99, 90, 17, 45, 51, 37, 150, 167, 229, 193]
    );
}

#[test]
fn mix_dna_takes_bits_by_selector() {
    let selector = [0xF0u8; 16];
    let a = [0xAAu8; 16];
    let b = [0x55u8; 16];
    assert_eq!(mix_dna(&selector, &a, &b), [0xA5u8; 16]);
    assert_eq!(mix_dna(&[0xFFu8; 16], &a, &b), a);
    assert_eq!(mix_dna(&[0u8; 16], &a, &b), b);
}

#[test]
fn breed_child_mixes_parents_with_selector() {
    let mut p = new_test_ext();
    assert_eq!(p.mint(1, [0xAAu8; 16]), Ok(0));
    assert_eq!(p.mint(1, [0x55u8; 16]), Ok(1));
    assert_eq!(p.breed_with_selector(1, 0, 1, [0x0Fu8; 16]), Ok(2));
    assert_eq!(p.kitties(2), Some(Kitty([0x5Au8; 16])));
    assert_eq!(p.kitties(0), Some(Kitty([0xAAu8; 16])));
}

#[test]
fn create_stops_at_max_index() {
    let mut balances = Ledger::new(1);
    balances.set_free_balance(1, 10_000);
    let mut p = Pallet::new(
        Config {
            kitty_reserve: 1_000,
            max_kitty_index: 1,
        },
        balances,
    );
    assert_eq!(p.get_kitty_id(), Ok(0));
    assert_eq!(p.create(1), Ok(0));
    assert_eq!(p.get_kitty_id(), Err(Error::KittiesCountOverflow));
    assert_eq!(p.create(1), Err(Error::KittiesCountOverflow));
    assert_eq!(p.breed(1, 0, 0), Err(Error::SameParentIndex));
    assert_eq!(p.kitties_count(), 1);
    assert_eq!(p.balances.reserved_balance(1), 1_000);
}

#[test]
fn create_counts_up_from_zero() {
    let mut p = new_test_ext();
    for expected in 0..5u32 {
        assert_eq!(p.kitties_count(), expected);
        assert_eq!(p.create(3), Ok(expected));
        assert_eq!(p.kitties_count(), expected + 1);
    }
    for id in 0..5u32 {
        assert_eq!(p.owner(id), Some(3));
    }
    assert_eq!(p.owner(5), None);
}

#[test]
fn transfer_to_self_fails_even_for_owner() {
    let mut p = new_test_ext();
    assert_eq!(p.create(1), Ok(0));
    assert_eq!(p.transfer(1, 1, 0), Err(Error::AlreadyOwned));
    assert_eq!(p.owner(0), Some(1));
    assert_eq!(p.balances.reserved_balance(1), 1_000);
}

#[test]
fn transfer_fails_when_receiver_cannot_reserve() {
    let mut p = new_test_ext();
    assert_eq!(p.create(1), Ok(0));
    assert_eq!(p.transfer(1, 50, 0), Err(Error::MoneyNoEnough));
    assert_eq!(p.owner(0), Some(1));
    assert_eq!(p.balances.reserved_balance(1), 1_000);
    assert_eq!(p.transfer(2, 3, 0), Err(Error::NotOwner));
}

#[test]
fn sale_with_none_delists() {
    let mut p = new_test_ext();
    assert_eq!(p.create(1), Ok(0));
    assert_eq!(p.sale(1, 0, Some(500)), Ok(()));
    assert_eq!(p.kitty_prices(0), Some(500));
    assert_eq!(p.sale(1, 0, None), Ok(()));
    assert_eq!(p.kitty_prices(0), None);
    assert_eq!(p.last_event(), Some(Event::KittySale(1, 0, None)));
    assert_eq!(p.buy(2, 0), Err(Error::NoSale));
}

#[test]
fn buy_unlisted_leaves_state_unchanged() {
    let mut p = new_test_ext();
    assert_eq!(p.create(1), Ok(0));
    assert_eq!(p.buy(2, 0), Err(Error::NoSale));
    assert_eq!(p.owner(0), Some(1));
    assert_eq!(p.kitties_count(), 1);
    assert_eq!(p.balances.free_balance(2), 20_000);
    assert_eq!(p.balances.reserved_balance(2), 0);
    assert_eq!(p.balances.reserved_balance(1), 1_000);
    assert_eq!(p.last_event(), Some(Event::KittyCreate(1, 0)));
}

#[test]
fn buy_without_reserve_is_refused_before_payment() {
    let mut p = new_test_ext();
    assert_eq!(p.create(1), Ok(0));
    assert_eq!(p.sale(1, 0, Some(19_500)), Ok(()));
    assert_eq!(p.buy(2, 0), Err(Error::MoneyNoEnough));
    assert_eq!(p.balances.free_balance(2), 20_000);
    assert_eq!(p.balances.free_balance(1), 9_000);
    assert_eq!(p.owner(0), Some(1));
    assert_eq!(p.kitty_prices(0), Some(19_500));
}

#[test]
fn buy_payment_errors() {
    let mut p = new_test_ext();
    assert_eq!(p.create(1), Ok(0));
    assert_eq!(p.sale(1, 0, Some(25_000)), Ok(()));
    assert_eq!(p.buy(2, 0), Err(Error::MoneyNoEnough));
    assert_eq!(p.sale(1, 0, Some(20_000)), Ok(()));
    assert_eq!(p.buy(2, 0), Err(Error::TransferError));
    assert_eq!(p.balances.free_balance(2), 20_000);
}

#[test]
fn ledger_reserve_and_unreserve() {
    let mut l = Ledger::new(1);
    l.set_free_balance(1, 100);
    assert_eq!(l.reserve(1, 150), Err(CurrencyError::InsufficientBalance));
    assert_eq!(l.account(1), AccountData { free: 100, reserved: 0 });
    assert_eq!(l.reserve(1, 60), Ok(()));
    assert_eq!(l.account(1), AccountData { free: 40, reserved: 60 });
    l.unreserve(1, 500);
    assert_eq!(l.account(1), AccountData { free: 100, reserved: 0 });
    l.unreserve(7, 10);
    assert_eq!(l.account(7), AccountData { free: 0, reserved: 0 });
}

#[test]
fn ledger_transfer_rules() {
    let mut l = Ledger::new(10);
    l.set_free_balance(1, 100);
    assert_eq!(l.transfer(1, 2, 95, true), Err(CurrencyError::KeepAlive));
    assert_eq!(l.transfer(1, 2, 5, false), Err(CurrencyError::ExistentialDeposit));
    assert_eq!(l.transfer(1, 2, 200, false), Err(CurrencyError::InsufficientBalance));
    assert_eq!(l.transfer(1, 2, 95, false), Ok(()));
    assert_eq!(l.free_balance(1), 5);
    assert_eq!(l.free_balance(2), 95);
    assert_eq!(l.transfer(1, 1, 5, true), Ok(()));
    assert_eq!(l.free_balance(1), 5);
    l.set_free_balance(3, u64::MAX);
    assert_eq!(l.transfer(2, 3, 1, false), Err(CurrencyError::Overflow));
}
