use spl_discriminator::SplDiscriminate;
use spl_transfer_hook_interface::instruction::ExecuteInstruction;
use whitelist_vault::access::{AccessControl, Whitelist};
use whitelist_vault::errors::WhitelistTransferHookError;
use whitelist_vault::hook::{
    authorize, check_is_transferring, decode_execute, parse_execute, transfer_hook, TransferContext, TransferPolicy,
};
use whitelist_vault::identity::Identity;

fn id(b: u8) -> Identity {
    Identity::new([b; 32])
}

const ON: TransferContext = TransferContext { transferring: true };
const OFF: TransferContext = TransferContext { transferring: false };

#[test]
fn marker_unset_always_rejected() {
    for s in [false, true] {
        for d in [false, true] {
            assert_eq!(authorize(&OFF, 10, s, d), Err(WhitelistTransferHookError::NotTransferring));
        }
    }
    assert_eq!(check_is_transferring(&OFF), Err(WhitelistTransferHookError::NotTransferring));
    assert_eq!(check_is_transferring(&ON), Ok(()));
}

#[test]
fn asymmetric_policy() {
    assert_eq!(authorize(&ON, 10, false, true), Ok(()));
    assert_eq!(authorize(&ON, 10, false, false), Err(WhitelistTransferHookError::NotWhitelisted));
    assert_eq!(authorize(&ON, 10, true, false), Ok(()));
    assert_eq!(authorize(&ON, 10, true, true), Ok(()));
}

#[test]
fn hook_consults_store() {
    let admin = id(1);
    let member = id(2);
    let outsider = id(3);
    let mut store = AccessControl::new(admin);
    store.add_to_whitelist(&admin, member).unwrap();
    assert_eq!(transfer_hook(&store, &ON, 5, &outsider, &member), Ok(()));
    assert_eq!(transfer_hook(&store, &ON, 5, &member, &outsider), Ok(()));
    assert_eq!(
        transfer_hook(&store, &ON, 5, &outsider, &id(4)),
        Err(WhitelistTransferHookError::NotWhitelisted)
    );
    assert_eq!(
        transfer_hook(&store, &OFF, 5, &member, &member),
        Err(WhitelistTransferHookError::NotTransferring)
    );
}

#[test]
fn store_add_remove() {
    let admin = id(1);
    let x = id(2);
    let mut store = AccessControl::new(admin);
    assert_eq!(store.add_to_whitelist(&x, x), Err(WhitelistTransferHookError::Unauthorized));
    store.add_to_whitelist(&admin, x).unwrap();
    assert!(store.is_member(&x));
    assert_eq!(store.add_to_whitelist(&admin, x), Err(WhitelistTransferHookError::AlreadyExists));
    assert_eq!(store.remove_from_whitelist(&x, &x), Err(WhitelistTransferHookError::Unauthorized));
    store.remove_from_whitelist(&admin, &x).unwrap();
    assert!(!store.is_member(&x));
    assert_eq!(
        store.remove_from_whitelist(&admin, &x),
        Err(WhitelistTransferHookError::InvalidWhitelistAccount)
    );
    assert_eq!(store.admin(), admin);
}

#[test]
fn shared_whitelist_index() {
    let wl = Whitelist { address: vec![id(1), id(2), id(2)], amount: vec![5, 6, 7], bump: 0 };
    assert_eq!(wl.get_index(id(2)), Some(1));
    assert_eq!(wl.get_index(id(1)), Some(0));
    assert_eq!(wl.get_index(id(3)), None);
}

#[test]
fn execute_instruction_decoded() {
    let mut data = ExecuteInstruction::SPL_DISCRIMINATOR_SLICE.to_vec();
    data.extend_from_slice(&0x0102_0304_0506_0708u64.to_le_bytes());
    assert_eq!(decode_execute(&data), Some(0x0102_0304_0506_0708));
    data.push(99);
    assert_eq!(decode_execute(&data), Some(0x0102_0304_0506_0708));
    assert_eq!(decode_execute(&data[..15]), None);
    let mut wrong = data.clone();
    wrong[0] ^= 1;
    assert_eq!(decode_execute(&wrong), None);
}

#[test]
fn parse_with_given_discriminator() {
    let disc = [1u8, 2, 3, 4, 5, 6, 7, 8];
    let mut data = disc.to_vec();
    data.extend_from_slice(&42u64.to_le_bytes());
    assert_eq!(parse_execute(&data, &disc), Some(42));
    assert_eq!(parse_execute(&data, &[0u8; 8]), None);
}

#[test]
fn whitelist_is_a_transfer_policy() {
    let admin = id(1);
    let member = id(2);
    let mut store = AccessControl::new(admin);
    store.add_to_whitelist(&admin, member).unwrap();
    assert_eq!(store.authorize_transfer(&ON, 1, &id(3), &member), Ok(()));
    assert_eq!(store.authorize_transfer(&ON, 1, &id(3), &id(4)), Err(WhitelistTransferHookError::NotWhitelisted));
    assert_eq!(store.authorize_transfer(&OFF, 1, &member, &member), Err(WhitelistTransferHookError::NotTransferring));
}
