use polkaguard::vault::{BountyVault, VaultError};

const OWNER: u128 = 3;
const REGISTRY: u128 = 1;
const RECIPIENT: u128 = 9;

#[test]
fn vault_constructor_works() {
    let vault = BountyVault::new(OWNER, REGISTRY, 500);
    assert_eq!(vault.get_registry(), REGISTRY);
    assert_eq!(vault.get_bounty_amount(), 500);
    assert_eq!(vault.get_balance(), 0);
}

#[test]
fn vault_default_works() {
    let vault = BountyVault::default();
    assert_eq!(vault.get_registry(), 0);
    assert_eq!(vault.get_bounty_amount(), 0);
    assert_eq!(vault.get_balance(), 0);
}

#[test]
fn claim_tracking_works() {
    let mut vault = BountyVault::new(OWNER, REGISTRY, 0);
    assert!(!vault.is_claimed(1));
    vault.fund(100).unwrap();
    vault.withdraw(REGISTRY, 1, RECIPIENT).unwrap();
    assert!(vault.is_claimed(1));
    assert!(!vault.is_claimed(2));
}

#[test]
fn fixed_bounty_pays_once() {
    let mut vault = BountyVault::new(OWNER, REGISTRY, 500);
    vault.fund(500).unwrap();

    let payout = vault.withdraw(REGISTRY, 7, RECIPIENT).unwrap();
    assert_eq!(payout.to, RECIPIENT);
    assert_eq!(payout.proof_id, 7);
    assert_eq!(payout.amount, 500);

    let note = vault.settle_payout(payout, true).unwrap();
    assert_eq!(note.to, RECIPIENT);
    assert_eq!(note.proof_id, 7);
    assert_eq!(note.amount, 500);
    assert_eq!(vault.get_balance(), 0);
    assert!(vault.is_claimed(7));

    assert_eq!(
        vault.withdraw(REGISTRY, 7, RECIPIENT),
        Err(VaultError::AlreadyClaimed)
    );
    assert_eq!(vault.get_balance(), 0);
}

#[test]
fn whole_balance_payout_when_no_fixed_bounty() {
    let mut vault = BountyVault::new(OWNER, REGISTRY, 0);
    vault.fund(250).unwrap();
    let payout = vault.withdraw(REGISTRY, 4, RECIPIENT).unwrap();
    assert_eq!(payout.amount, 250);
    vault.settle_payout(payout, true).unwrap();
    assert_eq!(vault.get_balance(), 0);
}

#[test]
fn only_registry_may_withdraw() {
    let mut vault = BountyVault::new(OWNER, REGISTRY, 0);
    vault.fund(100).unwrap();
    assert_eq!(
        vault.withdraw(OWNER, 1, RECIPIENT),
        Err(VaultError::NotAuthorized)
    );
    assert!(!vault.is_claimed(1));
    assert_eq!(vault.get_balance(), 100);
}

#[test]
fn underfunded_vault_refuses_withdrawal() {
    let mut vault = BountyVault::new(OWNER, REGISTRY, 500);
    vault.fund(300).unwrap();
    assert_eq!(
        vault.withdraw(REGISTRY, 1, RECIPIENT),
        Err(VaultError::InsufficientFunds)
    );
    assert!(!vault.is_claimed(1));

    let mut empty = BountyVault::new(OWNER, REGISTRY, 0);
    assert_eq!(
        empty.withdraw(REGISTRY, 1, RECIPIENT),
        Err(VaultError::InsufficientFunds)
    );
}

#[test]
fn deposits_accumulate_and_are_guarded() {
    let mut vault = BountyVault::new(OWNER, REGISTRY, 0);
    assert_eq!(vault.fund(0), Err(VaultError::ZeroDeposit));
    vault.fund(100).unwrap();
    vault.fund(150).unwrap();
    assert_eq!(vault.get_balance(), 250);

    let mut brimming = BountyVault::new(OWNER, REGISTRY, 0);
    brimming.fund(u128::MAX).unwrap();
    assert_eq!(brimming.fund(1), Err(VaultError::Overflow));
    assert_eq!(brimming.get_balance(), u128::MAX);
}

#[test]
fn failed_transfer_freezes_the_claim() {
    let mut vault = BountyVault::new(OWNER, REGISTRY, 500);
    vault.fund(500).unwrap();

    let payout = vault.withdraw(REGISTRY, 7, RECIPIENT).unwrap();
    // the claim was marked before the transfer was attempted
    assert!(vault.is_claimed(7));

    assert_eq!(vault.settle_payout(payout, false), None);
    assert_eq!(vault.get_balance(), 500);
    // frozen, not claimable twice
    assert!(vault.is_claimed(7));
    assert_eq!(
        vault.withdraw(REGISTRY, 7, RECIPIENT),
        Err(VaultError::AlreadyClaimed)
    );
}

#[test]
fn independent_claims_do_not_contend() {
    let mut vault = BountyVault::new(OWNER, REGISTRY, 100);
    vault.fund(300).unwrap();
    for key in [1u64, 2, 3] {
        let payout = vault.withdraw(REGISTRY, key, RECIPIENT).unwrap();
        assert_eq!(payout.amount, 100);
        vault.settle_payout(payout, true).unwrap();
    }
    assert_eq!(vault.get_balance(), 0);
    assert!(vault.is_claimed(1) && vault.is_claimed(2) && vault.is_claimed(3));
    assert_eq!(
        vault.withdraw(REGISTRY, 4, RECIPIENT),
        Err(VaultError::InsufficientFunds)
    );
}
