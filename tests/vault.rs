use anchor_lang::prelude::Pubkey;
use whitelist_vault::custody::{to_vault_error, Custody};
use whitelist_vault::errors::{VaultError, WhitelistTransferHookError};
use whitelist_vault::identity::Identity;

fn id(b: u8) -> Identity {
    Identity::new([b; 32])
}

struct Setup {
    custody: Custody,
    admin: Identity,
    mint: Identity,
}

fn setup() -> Setup {
    let admin = id(1);
    let mint = id(2);
    let mut custody = Custody::new(id(9));
    custody.initialize(admin, mint).unwrap();
    Setup { custody, admin, mint }
}

/// Vault set up with asset class M, U1 whitelisted holding 1000, then U1
/// deposits 500.
fn scenario_a() -> (Setup, Identity) {
    let mut s = setup();
    let u1 = id(3);
    s.custody.add_to_whitelist(&s.admin, u1).unwrap();
    s.custody.mint_issue(&s.admin, &s.mint, &u1, 1000).unwrap();
    s.custody.deposit(&u1, 500).unwrap();
    (s, u1)
}

#[test]
fn test_initialize() {
    let s = setup();
    assert!(s.custody.is_initialized());
    assert_eq!(s.custody.balance(), 0);
    let vault = s.custody.vault();
    assert_eq!(vault.admin, s.admin);
    assert_eq!(vault.mint, s.mint);
    assert!(s.custody.descriptor().initialized);
    assert_eq!(s.custody.descriptor().size, 86);
    let (expected, bump) = Pubkey::find_program_address(&[b"vault"], &Pubkey::new_from_array([9u8; 32]));
    assert_eq!(s.custody.vault_address().bytes, expected.to_bytes());
    assert_eq!(vault.bump, bump);
}

#[test]
fn test_deposit_whitelists_user() {
    let mut s = setup();
    let user = id(4);
    s.custody.add_to_whitelist(&s.admin, user).unwrap();
    s.custody.mint_issue(&s.admin, &s.mint, &user, 1_000).unwrap();
    s.custody.deposit(&user, 500).unwrap();
    assert!(s.custody.has_record(&user));
    assert_eq!(s.custody.deposit_of(&user), 500);
}

#[test]
fn test_withdraw_fails_if_overdrawn() {
    let mut s = setup();
    let user = id(4);
    s.custody.add_to_whitelist(&s.admin, user).unwrap();
    let err = s.custody.withdraw(&user, 1);
    assert!(err.is_err());
}

#[test]
fn test_transfer_hook_blocks_non_whitelisted() {
    let mut s = setup();
    let alice = id(5);
    let bob = id(6);
    s.custody.mint_issue(&s.admin, &s.mint, &alice, 100).unwrap();
    assert!(s.custody.transfer(&alice, &bob, 10).is_err());
    assert_eq!(s.custody.holding_of(&alice), 100);
    assert_eq!(s.custody.holding_of(&bob), 0);
}

#[test]
fn scenario_a_deposit() {
    let (s, u1) = scenario_a();
    assert_eq!(s.custody.balance(), 500);
    assert_eq!(s.custody.deposit_of(&u1), 500);
    assert_eq!(s.custody.holding_of(&u1), 500);
    assert_eq!(s.custody.holding_of(&s.custody.vault_address()), 500);
}

#[test]
fn scenario_b_overdraw_fails_unchanged() {
    let (mut s, u1) = scenario_a();
    assert_eq!(s.custody.withdraw(&u1, 600), Err(VaultError::InsufficientFunds));
    assert_eq!(s.custody.balance(), 500);
    assert_eq!(s.custody.deposit_of(&u1), 500);
    assert_eq!(s.custody.holding_of(&u1), 500);
}

#[test]
fn scenario_c_withdraw() {
    let (mut s, u1) = scenario_a();
    s.custody.withdraw(&u1, 200).unwrap();
    assert_eq!(s.custody.balance(), 300);
    assert_eq!(s.custody.deposit_of(&u1), 300);
    assert_eq!(s.custody.holding_of(&u1), 700);
    assert_eq!(s.custody.holding_of(&s.custody.vault_address()), 300);
}

#[test]
fn scenario_d_non_member_deposit_fails() {
    let mut s = setup();
    let u2 = id(7);
    s.custody.mint_issue(&s.admin, &s.mint, &u2, 1000).unwrap();
    assert_eq!(s.custody.deposit(&u2, 100), Err(VaultError::NotWhitelisted));
    assert_eq!(s.custody.holding_of(&u2), 1000);
    assert_eq!(s.custody.balance(), 0);
    assert_eq!(s.custody.holding_of(&s.custody.vault_address()), 0);
    assert!(!s.custody.has_record(&u2));
}

#[test]
fn accounting_matches_after_mixed_operations() {
    let (mut s, u1) = scenario_a();
    let u3 = id(8);
    s.custody.add_to_whitelist(&s.admin, u3).unwrap();
    s.custody.mint_issue(&s.admin, &s.mint, &u3, 250).unwrap();
    s.custody.deposit(&u3, 250).unwrap();
    s.custody.withdraw(&u1, 100).unwrap();
    s.custody.deposit(&u1, 50).unwrap();
    let total = s.custody.deposit_of(&u1) + s.custody.deposit_of(&u3);
    assert_eq!(total, 700);
    assert_eq!(s.custody.balance(), 700);
    assert_eq!(s.custody.holding_of(&s.custody.vault_address()), 700);
}

#[test]
fn initialize_twice_fails_unchanged() {
    let mut s = setup();
    let before = s.custody.vault_address();
    assert_eq!(s.custody.initialize(id(11), id(12)), Err(VaultError::AlreadyInitialized));
    assert_eq!(s.custody.vault().admin, s.admin);
    assert_eq!(s.custody.vault().mint, s.mint);
    assert_eq!(s.custody.vault_address(), before);
}

#[test]
fn whitelist_round_trip() {
    let mut s = setup();
    let x = id(20);
    assert!(!s.custody.is_member(&x));
    s.custody.add_to_whitelist(&s.admin, x).unwrap();
    assert!(s.custody.is_member(&x));
    s.custody.remove_from_whitelist(&s.admin, &x).unwrap();
    assert!(!s.custody.is_member(&x));
}

#[test]
fn removed_member_cannot_withdraw() {
    let (mut s, u1) = scenario_a();
    s.custody.remove_from_whitelist(&s.admin, &u1).unwrap();
    assert_eq!(s.custody.withdraw(&u1, 100), Err(VaultError::NotWhitelisted));
    assert_eq!(s.custody.balance(), 500);
}

#[test]
fn whitelist_admin_only() {
    let mut s = setup();
    let x = id(21);
    assert_eq!(s.custody.add_to_whitelist(&x, x), Err(VaultError::Unauthorized));
    s.custody.add_to_whitelist(&s.admin, x).unwrap();
    assert_eq!(s.custody.add_to_whitelist(&s.admin, x), Err(VaultError::AlreadyExists));
    assert_eq!(s.custody.remove_from_whitelist(&x, &x), Err(VaultError::Unauthorized));
    assert_eq!(s.custody.remove_from_whitelist(&s.admin, &id(22)), Err(VaultError::InvalidWhitelistAccount));
}

#[test]
fn operations_before_setup_fail() {
    let mut c = Custody::new(id(9));
    assert_eq!(c.deposit(&id(3), 1), Err(VaultError::InvalidVaultAccount));
    assert_eq!(c.withdraw(&id(3), 1), Err(VaultError::InvalidVaultAccount));
    assert_eq!(c.add_to_whitelist(&id(0), id(3)), Err(VaultError::InvalidVaultAccount));
    assert_eq!(c.mint_issue(&id(1), &id(2), &id(3), 5), Err(VaultError::InvalidVaultAccount));
}

#[test]
fn zero_amounts_rejected() {
    let (mut s, u1) = scenario_a();
    assert_eq!(s.custody.deposit(&u1, 0), Err(VaultError::InvalidAmount));
    assert_eq!(s.custody.withdraw(&u1, 0), Err(VaultError::InvalidAmount));
}

#[test]
fn withdraw_without_record_fails() {
    let mut s = setup();
    assert_eq!(s.custody.withdraw(&id(30), 1), Err(VaultError::RecordNotFound));
}

#[test]
fn deposit_beyond_holding_fails() {
    let (mut s, u1) = scenario_a();
    assert_eq!(s.custody.deposit(&u1, 501), Err(VaultError::InsufficientFunds));
    assert_eq!(s.custody.balance(), 500);
}

#[test]
fn deposit_overflow_fails() {
    let (mut s, u1) = scenario_a();
    let big = id(31);
    s.custody.add_to_whitelist(&s.admin, big).unwrap();
    s.custody.mint_issue(&s.admin, &s.mint, &big, u64::MAX).unwrap();
    assert_eq!(s.custody.deposit(&big, u64::MAX), Err(VaultError::OverflowError));
    assert_eq!(s.custody.deposit_of(&u1), 500);
}

#[test]
fn mint_checks_admin_and_asset() {
    let mut s = setup();
    let u = id(40);
    assert_eq!(s.custody.mint_issue(&u, &s.mint, &u, 5), Err(VaultError::Unauthorized));
    assert_eq!(s.custody.mint_issue(&s.admin, &id(41), &u, 5), Err(VaultError::InvalidMint));
    s.custody.mint_issue(&s.admin, &s.mint, &u, u64::MAX).unwrap();
    assert_eq!(s.custody.mint_issue(&s.admin, &s.mint, &u, 1), Err(VaultError::OverflowError));
    let vault = s.custody.vault_address();
    assert_eq!(s.custody.mint_issue(&s.admin, &s.mint, &vault, 1), Err(VaultError::InvalidVaultAccount));
}

#[test]
fn transfers_follow_asymmetric_policy() {
    let mut s = setup();
    let member = id(50);
    let outsider = id(51);
    let other = id(52);
    s.custody.add_to_whitelist(&s.admin, member).unwrap();
    s.custody.mint_issue(&s.admin, &s.mint, &outsider, 100).unwrap();
    s.custody.mint_issue(&s.admin, &s.mint, &member, 100).unwrap();
    s.custody.transfer(&outsider, &member, 10).unwrap();
    assert_eq!(s.custody.transfer(&outsider, &other, 10), Err(VaultError::NotWhitelisted));
    s.custody.transfer(&member, &other, 30).unwrap();
    assert_eq!(s.custody.holding_of(&outsider), 90);
    assert_eq!(s.custody.holding_of(&member), 80);
    assert_eq!(s.custody.holding_of(&other), 30);
}

#[test]
fn checkpoint_errors_map_to_vault_errors() {
    assert_eq!(to_vault_error(WhitelistTransferHookError::NotTransferring), VaultError::NotTransferring);
    assert_eq!(to_vault_error(WhitelistTransferHookError::NotWhitelisted), VaultError::NotWhitelisted);
    assert_eq!(to_vault_error(WhitelistTransferHookError::Unauthorized), VaultError::Unauthorized);
}
