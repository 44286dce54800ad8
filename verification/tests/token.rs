use polkaguard::token::{PSP22Error, PolkaGuardToken};

const ALICE: u128 = 1;
const BOB: u128 = 2;
const EVE: u128 = 5;

#[test]
fn token_constructor_works() {
    let contract = PolkaGuardToken::new(
        ALICE,
        1000,
        Some("PolkaGuard Token".to_string()),
        Some("PGT".to_string()),
        18,
    );
    assert_eq!(contract.total_supply(), 1000);
    assert_eq!(contract.token_name(), Some("PolkaGuard Token".to_string()));
    assert_eq!(contract.token_symbol(), Some("PGT".to_string()));
    assert_eq!(contract.token_decimals(), 18);
    assert_eq!(contract.owner(), ALICE);
}

#[test]
fn token_default_works() {
    let contract = PolkaGuardToken::default();
    assert_eq!(contract.total_supply(), 0);
    assert_eq!(contract.token_name(), None);
    assert_eq!(contract.token_symbol(), None);
    assert_eq!(contract.token_decimals(), 18);
}

#[test]
fn balance_of_works() {
    let contract = PolkaGuardToken::new(ALICE, 100, None, None, 18);
    assert_eq!(contract.balance_of(ALICE), 100);
    assert_eq!(contract.balance_of(BOB), 0);
}

#[test]
fn transfer_works() {
    let mut contract = PolkaGuardToken::new(ALICE, 100, None, None, 18);
    assert_eq!(contract.balance_of(BOB), 0);
    assert!(contract.transfer(ALICE, BOB, 10).is_ok());
    assert_eq!(contract.balance_of(BOB), 10);
    assert_eq!(contract.balance_of(ALICE), 90);
    assert_eq!(contract.total_supply(), 100);
}

#[test]
fn transfer_insufficient_balance_fails() {
    let mut contract = PolkaGuardToken::new(ALICE, 100, None, None, 18);
    let result = contract.transfer(ALICE, BOB, 101);
    assert_eq!(result, Err(PSP22Error::InsufficientBalance));
    assert_eq!(contract.balance_of(ALICE), 100);
    assert_eq!(contract.balance_of(BOB), 0);
}

#[test]
fn self_transfer_keeps_balance() {
    let mut contract = PolkaGuardToken::new(ALICE, 100, None, None, 18);
    assert!(contract.transfer(ALICE, ALICE, 40).is_ok());
    assert_eq!(contract.balance_of(ALICE), 100);
}

#[test]
fn approve_works() {
    let mut contract = PolkaGuardToken::new(ALICE, 100, None, None, 18);
    assert!(contract.approve(ALICE, BOB, 10).is_ok());
    assert_eq!(contract.allowance(ALICE, BOB), 10);
    assert_eq!(contract.allowance(BOB, ALICE), 0);
}

#[test]
fn transfer_from_spends_allowance() {
    let mut contract = PolkaGuardToken::new(ALICE, 100, None, None, 18);
    contract.approve(ALICE, BOB, 30).unwrap();

    assert!(contract.transfer_from(BOB, ALICE, EVE, 20).is_ok());
    assert_eq!(contract.balance_of(ALICE), 80);
    assert_eq!(contract.balance_of(EVE), 20);
    assert_eq!(contract.allowance(ALICE, BOB), 10);

    assert_eq!(
        contract.transfer_from(BOB, ALICE, EVE, 11),
        Err(PSP22Error::InsufficientAllowance)
    );
    assert_eq!(contract.balance_of(ALICE), 80);
    assert_eq!(contract.allowance(ALICE, BOB), 10);
}

#[test]
fn allowance_adjustments_work() {
    let mut contract = PolkaGuardToken::new(ALICE, 100, None, None, 18);
    contract.increase_allowance(ALICE, BOB, 25).unwrap();
    assert_eq!(contract.allowance(ALICE, BOB), 25);
    contract.increase_allowance(ALICE, BOB, 5).unwrap();
    assert_eq!(contract.allowance(ALICE, BOB), 30);
    contract.decrease_allowance(ALICE, BOB, 12).unwrap();
    assert_eq!(contract.allowance(ALICE, BOB), 18);

    assert_eq!(
        contract.decrease_allowance(ALICE, BOB, 19),
        Err(PSP22Error::InsufficientAllowance)
    );
    assert_eq!(contract.allowance(ALICE, BOB), 18);

    contract.increase_allowance(ALICE, EVE, u128::MAX).unwrap();
    assert_eq!(
        contract.increase_allowance(ALICE, EVE, 1),
        Err(PSP22Error::Overflow)
    );
    assert_eq!(contract.allowance(ALICE, EVE), u128::MAX);
}

#[test]
fn mint_works() {
    let mut contract = PolkaGuardToken::new(ALICE, 100, None, None, 18);
    assert!(contract.mint(ALICE, BOB, 50).is_ok());
    assert_eq!(contract.balance_of(BOB), 50);
    assert_eq!(contract.total_supply(), 150);
}

#[test]
fn mint_is_owner_gated_and_guarded() {
    let mut contract = PolkaGuardToken::new(ALICE, 100, None, None, 18);
    assert_eq!(contract.mint(BOB, BOB, 50), Err(PSP22Error::OnlyOwner));
    assert_eq!(contract.balance_of(BOB), 0);

    assert_eq!(
        contract.mint(ALICE, BOB, u128::MAX),
        Err(PSP22Error::Overflow)
    );
    assert_eq!(contract.total_supply(), 100);
    assert_eq!(contract.balance_of(BOB), 0);
}

#[test]
fn burn_works() {
    let mut contract = PolkaGuardToken::new(ALICE, 100, None, None, 18);
    assert!(contract.burn(ALICE, 40).is_ok());
    assert_eq!(contract.balance_of(ALICE), 60);
    assert_eq!(contract.total_supply(), 60);

    assert_eq!(contract.burn(ALICE, 61), Err(PSP22Error::InsufficientBalance));
    assert_eq!(contract.balance_of(ALICE), 60);
    assert_eq!(contract.total_supply(), 60);
}

#[test]
fn transfer_at_the_range_boundary_succeeds() {
    let mut contract = PolkaGuardToken::new(ALICE, u128::MAX, None, None, 18);
    contract.transfer(ALICE, BOB, 1).unwrap();
    contract.transfer(ALICE, BOB, u128::MAX - 1).unwrap();
    assert_eq!(contract.balance_of(BOB), u128::MAX);
    assert_eq!(contract.balance_of(ALICE), 0);
    assert_eq!(contract.total_supply(), u128::MAX);
}
