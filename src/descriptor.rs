use spl_tlv_account_resolution::state::ExtraAccountMetaList;
use vstd::prelude::*;

use crate::errors::WhitelistTransferHookError;
use crate::vault::{whitelist_seed, whitelist_tag};

verus! {

/// How one seed of a derived extra account is resolved at transfer time.
pub enum SeedRule {
    /// Fixed bytes.
    Literal { bytes: Vec<u8> },
    /// The address of the account at `index` in the transfer's account list.
    AccountKey { index: u8 },
    /// `length` bytes at `data_index` of the data of the account at
    /// `account_index`.
    AccountData { account_index: u8, data_index: u8, length: u8 },
}

/// One extra account that every transfer of the asset must attach: an
/// address derived under the hook program from the listed seeds.
pub struct AccountRule {
    pub seeds: Vec<SeedRule>,
    pub is_signer: bool,
    pub is_writable: bool,
}

/// Position of the source asset account in a transfer's account list.
pub const SOURCE_ACCOUNT_INDEX: u8 = 0;

/// Position of the destination asset account in a transfer's account list.
pub const DESTINATION_ACCOUNT_INDEX: u8 = 2;

/// Where an asset account stores its owner: bytes 32 to 64.
pub const OWNER_OFFSET: u8 = 32;

/// Length of an identity.
pub const IDENTITY_LEN: u8 = 32;

/// Whether `rule` is the read-only access-control record of the owner of the
/// asset account at `account_index`.
pub open spec fn is_owner_record_rule(rule: AccountRule, account_index: u8) -> bool {
    &&& !rule.is_signer
    &&& !rule.is_writable
    &&& rule.seeds@.len() == 2
    &&& rule.seeds@[0] matches SeedRule::Literal { bytes } && bytes@ == whitelist_tag()
    &&& rule.seeds@[1] == (SeedRule::AccountData {
        account_index,
        data_index: OWNER_OFFSET,
        length: IDENTITY_LEN,
    })
}

fn owner_record_rule(account_index: u8) -> (r: AccountRule)
    ensures
        is_owner_record_rule(r, account_index),
{
    let mut seeds: Vec<SeedRule> = Vec::new();
    seeds.push(SeedRule::Literal { bytes: whitelist_seed() });
    seeds.push(SeedRule::AccountData { account_index, data_index: OWNER_OFFSET, length: IDENTITY_LEN });
    AccountRule { seeds, is_signer: false, is_writable: false }
}

/// The extra accounts that the checkpoint needs, in order: the access-control
/// record of the source owner, then that of the destination owner. Both setup
/// and every transfer take the list from here.
pub fn build_rules() -> (r: Vec<AccountRule>)
    ensures
        r@.len() == 2,
        is_owner_record_rule(r@[0], SOURCE_ACCOUNT_INDEX),
        is_owner_record_rule(r@[1], DESTINATION_ACCOUNT_INDEX),
{
    let mut r: Vec<AccountRule> = Vec::new();
    r.push(owner_record_rule(SOURCE_ACCOUNT_INDEX));
    r.push(owner_record_rule(DESTINATION_ACCOUNT_INDEX));
    r
}

/// The byte size of a descriptor that lists `count` rules: an eight-byte
/// discriminator, a four-byte length, a four-byte count, and 35 bytes per rule.
pub open spec fn descriptor_len(count: nat) -> int {
    (16 + 35 * count) as int
}

/// [`descriptor_len`], saturated at the largest `usize`.
pub open spec fn saturated_len(count: nat) -> int {
    if descriptor_len(count) <= usize::MAX {
        descriptor_len(count)
    } else {
        usize::MAX as int
    }
}

/// Relies on `ExtraAccountMetaList::size_of`: 12 header bytes plus a
/// four-byte count and 35 bytes per entry, failing only when the entries and
/// count overflow.
#[verifier::external_body]
fn extra_meta_list_size(count: usize) -> (r: Option<usize>)
    ensures
        r matches Some(n) ==> n == saturated_len(count as nat),
        r is None <==> 35 * count + 4 > usize::MAX,
{
    ExtraAccountMetaList::size_of(count).ok()
}

/// The size of the descriptor that holds `rules`.
pub fn descriptor_size(rules: &Vec<AccountRule>) -> (r: Result<usize, WhitelistTransferHookError>)
    ensures
        35 * rules@.len() + 4 <= usize::MAX ==> r == Ok::<usize, WhitelistTransferHookError>(
            saturated_len(rules@.len()) as usize,
        ),
        35 * rules@.len() + 4 > usize::MAX ==> r == Err::<usize, WhitelistTransferHookError>(
            WhitelistTransferHookError::ExtraAccountMetaError,
        ),
{
    match extra_meta_list_size(rules.len()) {
        Some(n) => Ok(n),
        None => Err(WhitelistTransferHookError::ExtraAccountMetaError),
    }
}

/// The published account-resolution descriptor: written once, immutable
/// after.
pub struct Descriptor {
    pub initialized: bool,
    pub rules: Vec<AccountRule>,
    pub size: usize,
}

impl Descriptor {
    /// A descriptor account not yet written.
    pub fn new() -> (r: Descriptor)
        ensures
            !r.initialized,
            r.rules@.len() == 0,
            r.size == 0,
    {
        Descriptor { initialized: false, rules: Vec::new(), size: 0 }
    }

    /// Writes the rules of [`build_rules`] into the descriptor, sized to fit
    /// them exactly. Fails without change on replay.
    pub fn init(&mut self) -> (r: Result<(), WhitelistTransferHookError>)
        ensures
            old(self).initialized ==> r == Err::<(), _>(WhitelistTransferHookError::AlreadyInitialized)
                && *final(self) == *old(self),
            !old(self).initialized ==> r is Ok && final(self).initialized && final(self).rules@.len() == 2
                && is_owner_record_rule(final(self).rules@[0], SOURCE_ACCOUNT_INDEX) && is_owner_record_rule(
                final(self).rules@[1],
                DESTINATION_ACCOUNT_INDEX,
            ) && final(self).size == descriptor_len(2),
    {
        if self.initialized {
            return Err(WhitelistTransferHookError::AlreadyInitialized);
        }
        let rules = build_rules();
        let size = descriptor_size(&rules)?;
        self.rules = rules;
        self.size = size;
        self.initialized = true;
        Ok(())
    }
}

} // verus!
