use erc20::{AccountId, Approval, Erc20, Error, Event, Transfer};

fn alice() -> AccountId {
    AccountId::new([1u8; 32])
}

fn bob() -> AccountId {
    AccountId::new([2u8; 32])
}

fn carol() -> AccountId {
    AccountId::new([3u8; 32])
}

fn scenario_one() -> Erc20 {
    Erc20::new(1000, alice())
}

#[test]
fn default_works() {
    let erc20 = Erc20::new(1000, alice());
    assert_eq!(erc20.get_total_supply(), 1000);
}

#[test]
fn transfer_works() {
    let mut erc20 = Erc20::new(1000, alice());
    assert_eq!(erc20.balance_of(bob()), 0);
    assert_eq!(erc20.transfer(alice(), bob(), 10), Ok(()));
    assert_eq!(erc20.balance_of(bob()), 10);
}

#[test]
fn new_credits_creator() {
    let l = scenario_one();
    assert_eq!(l.get_total_supply(), 1000);
    assert_eq!(l.balance_of(alice()), 1000);
    assert_eq!(l.balance_of(bob()), 0);
    assert_eq!(l.allowance(alice(), bob()), 0);
    assert!(l.events().is_empty());
}

#[test]
fn transfer_moves_and_emits_event() {
    let mut l = scenario_one();
    assert_eq!(l.transfer(alice(), bob(), 10), Ok(()));
    assert_eq!(l.balance_of(alice()), 990);
    assert_eq!(l.balance_of(bob()), 10);
    assert_eq!(l.get_total_supply(), 1000);
    let expected = Event::Transfer(Transfer { from: Some(alice()), to: Some(bob()), value: 10 });
    assert_eq!(l.events(), &vec![expected]);
}

#[test]
fn transfer_insufficient_changes_nothing() {
    let mut l = scenario_one();
    assert_eq!(l.transfer(alice(), bob(), 2000), Err(Error::InsufficientBalance));
    assert_eq!(l.balance_of(alice()), 1000);
    assert_eq!(l.balance_of(bob()), 0);
    assert_eq!(l.get_total_supply(), 1000);
    assert!(l.events().is_empty());
}

#[test]
fn transfer_whole_balance() {
    let mut l = scenario_one();
    assert_eq!(l.transfer(alice(), bob(), 1000), Ok(()));
    assert_eq!(l.balance_of(alice()), 0);
    assert_eq!(l.balance_of(bob()), 1000);
    assert_eq!(l.transfer(alice(), bob(), 1), Err(Error::InsufficientBalance));
}

#[test]
fn self_transfer_is_no_op() {
    let mut l = scenario_one();
    assert_eq!(l.transfer(alice(), alice(), 400), Ok(()));
    assert_eq!(l.balance_of(alice()), 1000);
    assert_eq!(l.get_total_supply(), 1000);
    assert_eq!(l.events().len(), 1);
}

#[test]
fn approve_is_additive() {
    let mut l = scenario_one();
    assert_eq!(l.approve(alice(), carol(), 100), Ok(()));
    assert_eq!(l.allowance(alice(), carol()), 100);
    assert_eq!(l.approve(alice(), carol(), 50), Ok(()));
    assert_eq!(l.allowance(alice(), carol()), 150);
    assert_eq!(l.allowance(carol(), alice()), 0);
    let first = Event::Approval(Approval { owner: alice(), spender: carol(), value: 100 });
    let second = Event::Approval(Approval { owner: alice(), spender: carol(), value: 50 });
    assert_eq!(l.events(), &vec![first, second]);
    assert_eq!(l.balance_of(alice()), 1000);
}

#[test]
fn approve_above_balance_is_refused() {
    let mut l = scenario_one();
    assert_eq!(l.approve(alice(), carol(), 1001), Err(Error::InsufficientBalance));
    assert_eq!(l.allowance(alice(), carol()), 0);
    assert!(l.events().is_empty());
}

#[test]
fn approve_overflow_is_refused() {
    let mut l = Erc20::new(u128::MAX, alice());
    assert_eq!(l.approve(alice(), carol(), u128::MAX), Ok(()));
    assert_eq!(l.approve(alice(), carol(), 1), Err(Error::Overflow));
    assert_eq!(l.allowance(alice(), carol()), u128::MAX);
    assert_eq!(l.events().len(), 1);
}

#[test]
fn transfer_from_uses_owner_destination_allowance() {
    let mut l = scenario_one();
    assert_eq!(l.approve(alice(), bob(), 100), Ok(()));
    assert_eq!(l.transfer_from(alice(), bob(), 60), Ok(()));
    assert_eq!(l.balance_of(alice()), 940);
    assert_eq!(l.balance_of(bob()), 60);
    assert_eq!(l.get_total_supply(), 1000);
    // the allowance is not used up
    assert_eq!(l.allowance(alice(), bob()), 100);
    assert_eq!(l.transfer_from(alice(), bob(), 100), Ok(()));
    assert_eq!(l.balance_of(bob()), 160);
    let last = Event::Transfer(Transfer { from: Some(alice()), to: Some(bob()), value: 100 });
    assert_eq!(l.events().last(), Some(&last));
}

#[test]
fn transfer_from_without_allowance_is_refused() {
    let mut l = scenario_one();
    assert_eq!(l.approve(alice(), carol(), 100), Ok(()));
    assert_eq!(l.transfer_from(alice(), bob(), 10), Err(Error::InsufficientBalance));
    assert_eq!(l.balance_of(alice()), 1000);
    assert_eq!(l.balance_of(bob()), 0);
    assert_eq!(l.events().len(), 1);
}

#[test]
fn transfer_from_above_balance_is_refused() {
    let mut l = scenario_one();
    assert_eq!(l.approve(alice(), bob(), 500), Ok(()));
    assert_eq!(l.transfer(alice(), carol(), 800), Ok(()));
    assert_eq!(l.transfer_from(alice(), bob(), 300), Err(Error::InsufficientBalance));
    assert_eq!(l.balance_of(alice()), 200);
    assert_eq!(l.balance_of(bob()), 0);
    assert_eq!(l.allowance(alice(), bob()), 500);
}

#[test]
fn mint_increases_supply() {
    let mut l = scenario_one();
    assert_eq!(l.mint(bob(), 500), Ok(()));
    assert_eq!(l.balance_of(bob()), 500);
    assert_eq!(l.get_total_supply(), 1500);
    assert_eq!(l.balance_of(alice()), 1000);
}

#[test]
fn mint_overflow_is_refused() {
    let mut l = Erc20::new(u128::MAX - 5, alice());
    assert_eq!(l.mint(bob(), 6), Err(Error::Overflow));
    assert_eq!(l.get_total_supply(), u128::MAX - 5);
    assert_eq!(l.balance_of(bob()), 0);
    assert_eq!(l.mint(bob(), 5), Ok(()));
    assert_eq!(l.get_total_supply(), u128::MAX);
}

#[test]
fn burn_decreases_supply() {
    let mut l = scenario_one();
    assert_eq!(l.burn(alice(), 1000), Ok(()));
    assert_eq!(l.balance_of(alice()), 0);
    assert_eq!(l.get_total_supply(), 0);
    assert_eq!(l.burn(alice(), 1), Err(Error::InsufficientBalance));
    assert_eq!(l.get_total_supply(), 0);
}

#[test]
fn burn_partial() {
    let mut l = scenario_one();
    assert_eq!(l.burn(alice(), 250), Ok(()));
    assert_eq!(l.balance_of(alice()), 750);
    assert_eq!(l.get_total_supply(), 750);
}

#[test]
fn supply_matches_sum_of_balances() {
    let mut l = scenario_one();
    assert_eq!(l.transfer(alice(), bob(), 300), Ok(()));
    assert_eq!(l.mint(carol(), 70), Ok(()));
    assert_eq!(l.approve(bob(), carol(), 100), Ok(()));
    assert_eq!(l.transfer_from(bob(), carol(), 100), Ok(()));
    assert_eq!(l.burn(alice(), 200), Ok(()));
    let sum = l.balance_of(alice()) + l.balance_of(bob()) + l.balance_of(carol());
    assert_eq!(l.get_total_supply(), sum);
    assert_eq!(sum, 870);
}

#[test]
fn queries_do_not_change_state() {
    let l = scenario_one();
    for _ in 0..3 {
        assert_eq!(l.balance_of(alice()), 1000);
        assert_eq!(l.allowance(alice(), bob()), 0);
        assert_eq!(l.get_total_supply(), 1000);
    }
    assert!(l.events().is_empty());
}
