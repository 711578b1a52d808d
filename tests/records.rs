use anchor_lang::prelude::Pubkey;
use whitelist_vault::bytes::{le_to_u64, u64_to_le};
use whitelist_vault::descriptor::{build_rules, descriptor_size, Descriptor, SeedRule};
use whitelist_vault::errors::{VaultError, WhitelistTransferHookError};
use whitelist_vault::access::{AccessControl, Whitelist};
use whitelist_vault::fundraiser::{
    process_initialize_instruction, process_instruction, Fundraiser, FundraiserError, FundraiserInstructions, InitializeData,
};
use whitelist_vault::identity::{derive_address, Identity};
use whitelist_vault::vault::{
    transfer_checked_data, transfer_tokens, vault_signer_seeds, TransferParties, UserDeposit, Vault,
};

fn id(b: u8) -> Identity {
    Identity::new([b; 32])
}

#[test]
fn le_codec_values() {
    assert_eq!(u64_to_le(0x0102_0304_0506_0708), vec![8, 7, 6, 5, 4, 3, 2, 1]);
    assert_eq!(u64_to_le(u64::MAX), vec![255; 8]);
    assert_eq!(le_to_u64(&[8, 7, 6, 5, 4, 3, 2, 1, 99]), 0x0102_0304_0506_0708);
}

#[test]
fn transfer_data_layout() {
    assert_eq!(transfer_checked_data(500, 9), vec![12, 244, 1, 0, 0, 0, 0, 0, 0, 9]);
}

#[test]
fn derived_addresses_match_ledger() {
    let program = id(9);
    let user = id(3);
    let (addr, bump) = derive_address(&b"whitelist".to_vec(), Some(&user), &program).unwrap();
    let (expected, expected_bump) =
        Pubkey::find_program_address(&[b"whitelist", &[3u8; 32]], &Pubkey::new_from_array([9u8; 32]));
    assert_eq!(addr.bytes, expected.to_bytes());
    assert_eq!(bump, expected_bump);
    assert_ne!(addr, user);
    assert_ne!(addr, program);
    let again = derive_address(&b"whitelist".to_vec(), Some(&user), &program).unwrap();
    assert_eq!(again, (addr, bump));
    let other = derive_address(&b"whitelist".to_vec(), Some(&id(4)), &program).unwrap();
    assert_ne!(other.0, addr);
}

#[test]
fn too_many_seeds_not_derivable() {
    let seeds: Vec<u8> = vec![0; 40];
    assert_eq!(derive_address(&seeds, None, &id(9)), None);
}

#[test]
fn transfer_instruction_accounts() {
    let hook = id(10);
    let p = TransferParties {
        token_program: id(11),
        hook_program: hook,
        mint: id(2),
        decimals: 9,
        source_account: id(12),
        destination_account: id(13),
        authority: id(3),
        source_owner: id(3),
        destination_owner: id(14),
    };
    let ix = transfer_tokens(&p, 500).unwrap();
    assert_eq!(ix.program_id, id(11));
    assert_eq!(ix.data, vec![12, 244, 1, 0, 0, 0, 0, 0, 0, 9]);
    assert_eq!(ix.accounts.len(), 8);
    assert_eq!(ix.accounts[0].address, id(12));
    assert!(ix.accounts[0].is_writable && !ix.accounts[0].is_signer);
    assert!(ix.accounts[3].is_signer);
    let hook_key = Pubkey::new_from_array([10u8; 32]);
    let extra = Pubkey::find_program_address(&[b"extra-account-metas", &[2u8; 32]], &hook_key).0;
    let src = Pubkey::find_program_address(&[b"whitelist", &[3u8; 32]], &hook_key).0;
    let dst = Pubkey::find_program_address(&[b"whitelist", &[14u8; 32]], &hook_key).0;
    assert_eq!(ix.accounts[4].address.bytes, extra.to_bytes());
    assert_eq!(ix.accounts[5].address.bytes, src.to_bytes());
    assert_eq!(ix.accounts[6].address.bytes, dst.to_bytes());
    assert_eq!(ix.accounts[7].address, hook);
}

#[test]
fn signer_seeds_carry_bump() {
    assert_eq!(vault_signer_seeds(254), vec![b"vault".to_vec(), vec![254]]);
}

#[test]
fn descriptor_rules_and_size() {
    let rules = build_rules();
    assert_eq!(rules.len(), 2);
    match &rules[0].seeds[0] {
        SeedRule::Literal { bytes } => assert_eq!(bytes, &b"whitelist".to_vec()),
        _ => panic!("first seed must be the namespace"),
    }
    match &rules[1].seeds[1] {
        SeedRule::AccountData { account_index, data_index, length } => {
            assert_eq!((*account_index, *data_index, *length), (2, 32, 32));
        }
        _ => panic!("second seed must be the destination owner"),
    }
    assert_eq!(descriptor_size(&rules), Ok(86));
}

#[test]
fn descriptor_init_once() {
    let mut d = Descriptor::new();
    assert_eq!(d.init(), Ok(()));
    assert_eq!(d.size, 86);
    assert_eq!(d.init(), Err(WhitelistTransferHookError::AlreadyInitialized));
    assert_eq!(d.rules.len(), 2);
}

#[test]
fn vault_checked_arithmetic() {
    let mut v = Vault::initialize_vault(id(1), id(2), 255);
    assert_eq!(v.add_vault_amount(u64::MAX), Ok(()));
    assert_eq!(v.add_vault_amount(1), Err(VaultError::OverflowError));
    assert_eq!(v.balance, u64::MAX);
    assert_eq!(v.sub_vault_amount(u64::MAX), Ok(()));
    assert_eq!(v.sub_vault_amount(1), Err(VaultError::UnderflowError));
    assert_eq!(v.balance, 0);
}

#[test]
fn deposit_record_filled_on_first_use() {
    let mut r = UserDeposit { address: id(0), amount: 77, bump: 0 };
    r.add_deposited_amount(&id(3), 250, 40).unwrap();
    assert_eq!(r, UserDeposit { address: id(3), amount: 40, bump: 250 });
    r.add_deposited_amount(&id(4), 1, 2).unwrap();
    assert_eq!(r, UserDeposit { address: id(3), amount: 42, bump: 250 });
    assert_eq!(r.get_user_balance(), 42);
    assert_eq!(r.sub_deposited_amount(43), Err(VaultError::UnderflowError));
    assert_eq!(r.sub_deposited_amount(42), Ok(()));
    assert_eq!(r.add_deposited_amount(&id(3), 0, u64::MAX), Ok(()));
    assert_eq!(r.add_deposited_amount(&id(3), 0, 1), Err(VaultError::OverflowError));
}

#[test]
fn fundraiser_instruction_tags() {
    assert_eq!(FundraiserInstructions::try_from(&0), Ok(FundraiserInstructions::Initialize));
    assert_eq!(FundraiserInstructions::try_from(&1), Err(FundraiserError::InvalidInstructionData));
}

#[test]
fn fundraiser_record_round_trip() {
    let f = Fundraiser {
        maker: [1; 32],
        mint_to_raise: [2; 32],
        amount_to_raise: 1000u64.to_le_bytes(),
        current_amount: [0; 8],
        time_started: 5i64.to_le_bytes(),
        duration: 7,
        bump: 254,
    };
    let bytes = f.to_bytes();
    assert_eq!(bytes.len(), Fundraiser::LEN);
    assert_eq!(bytes[88], 7);
    assert_eq!(Fundraiser::from_account_info(&bytes), Ok(f));
    assert_eq!(Fundraiser::from_account_info(&bytes[..89]), Err(FundraiserError::InvalidAccountData));
}

#[test]
fn fundraiser_initialize() {
    let mut data = vec![254u8];
    data.extend_from_slice(&1000u64.to_le_bytes());
    data.push(30);
    let parsed = InitializeData::parse(&data).unwrap();
    assert_eq!(parsed, InitializeData { bump: 254, amount_to_raise: 1000u64.to_le_bytes(), duration: 30 });
    assert_eq!(InitializeData::parse(&data[..9]), Err(FundraiserError::InvalidInstructionData));
    let f = process_initialize_instruction(&[1; 32], &[2; 32], false, 999, -3, &data).unwrap();
    assert_eq!(f.amount_to_raise, 1000u64.to_le_bytes());
    assert_eq!(f.current_amount, [0; 8]);
    assert_eq!(f.time_started, (-3i64).to_le_bytes());
    assert_eq!((f.duration, f.bump), (30, 254));
    assert_eq!(
        process_initialize_instruction(&[1; 32], &[2; 32], false, 1000, 0, &data),
        Err(FundraiserError::AmountTooSmall)
    );
    assert_eq!(
        process_initialize_instruction(&[1; 32], &[2; 32], true, 999, 0, &data),
        Err(FundraiserError::IllegalOwner)
    );
}

#[test]
fn fundraiser_dispatch() {
    let mut data = vec![0u8, 254u8];
    data.extend_from_slice(&1000u64.to_le_bytes());
    data.push(30);
    let f = process_instruction(&data, &[1; 32], &[2; 32], false, 10, 0).unwrap();
    assert_eq!((f.bump, f.duration), (254, 30));
    assert_eq!(process_instruction(&[], &[1; 32], &[2; 32], false, 10, 0), Err(FundraiserError::InvalidInstructionData));
    data[0] = 1;
    assert_eq!(process_instruction(&data, &[1; 32], &[2; 32], false, 10, 0), Err(FundraiserError::InvalidInstructionData));
}

#[test]
fn config_requires_upgrade_authority() {
    let admin = id(1);
    let store = AccessControl::initialize_config(admin, Some(admin)).unwrap();
    assert_eq!(store.admin(), admin);
    assert!(!store.is_member(&admin));
    assert_eq!(
        AccessControl::initialize_config(admin, Some(id(2))).err(),
        Some(WhitelistTransferHookError::Unauthorized)
    );
    assert_eq!(AccessControl::initialize_config(admin, None).err(), Some(WhitelistTransferHookError::Unauthorized));
}

#[test]
fn shared_whitelist_starts_empty() {
    let wl = Whitelist::initialize_whitelist(7);
    assert!(wl.address.is_empty() && wl.amount.is_empty());
    assert_eq!(wl.bump, 7);
    assert_eq!(wl.get_index(id(1)), None);
}
