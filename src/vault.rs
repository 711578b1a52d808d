use vstd::prelude::*;

use crate::bytes::{le_value, u64_to_le};
use crate::errors::VaultError;
use crate::identity::{derive_address, program_address, record_seeds, Identity};

verus! {

/// The vault's singleton record.
#[derive(Clone, Copy, Debug, PartialEq, Eq)]
pub struct Vault {
    pub admin: Identity,
    pub mint: Identity,
    pub balance: u64,
    pub bump: u8,
}

/// One depositor's record.
#[derive(Clone, Copy, Debug, PartialEq, Eq)]
pub struct UserDeposit {
    pub address: Identity,
    pub amount: u64,
    pub bump: u8,
}

/// The all-zero identity, which marks a record not yet filled in.
pub open spec fn is_unset(k: Seq<u8>) -> bool {
    forall|i: int| 0 <= i < k.len() ==> k[i] == 0u8
}

impl Identity {
    /// Whether every byte is zero.
    pub fn is_unset(&self) -> (r: bool)
        ensures
            r == is_unset(self@),
    {
        let mut i: usize = 0;
        while i < 32
            invariant
                0 <= i <= 32,
                self@.len() == 32,
                forall|j: int| 0 <= j < i ==> self@[j] == 0u8,
            decreases 32 - i,
        {
            if self.bytes[i] != 0 {
                return false;
            }
            i = i + 1;
        }
        true
    }
}

impl Vault {
    /// A fresh vault record with a zero balance.
    pub fn initialize_vault(admin: Identity, mint: Identity, bump: u8) -> (r: Vault)
        ensures
            r.admin == admin,
            r.mint == mint,
            r.bump == bump,
            r.balance == 0,
    {
        Vault { admin, mint, balance: 0, bump }
    }

    /// Adds `amount` to the pooled balance, failing on overflow.
    pub fn add_vault_amount(&mut self, amount: u64) -> (r: Result<(), VaultError>)
        ensures
            old(self).balance + amount <= u64::MAX ==> r is Ok && *final(self) == (Vault {
                balance: (old(self).balance + amount) as u64,
                ..*old(self)
            }),
            old(self).balance + amount > u64::MAX ==> r == Err::<(), _>(VaultError::OverflowError) && *final(self)
                == *old(self),
    {
        match self.balance.checked_add(amount) {
            Some(b) => {
                self.balance = b;
                Ok(())
            },
            None => Err(VaultError::OverflowError),
        }
    }

    /// Takes `amount` from the pooled balance, failing on underflow.
    pub fn sub_vault_amount(&mut self, amount: u64) -> (r: Result<(), VaultError>)
        ensures
            amount <= old(self).balance ==> r is Ok && *final(self) == (Vault {
                balance: (old(self).balance - amount) as u64,
                ..*old(self)
            }),
            amount > old(self).balance ==> r == Err::<(), _>(VaultError::UnderflowError) && *final(self) == *old(
                self,
            ),
    {
        match self.balance.checked_sub(amount) {
            Some(b) => {
                self.balance = b;
                Ok(())
            },
            None => Err(VaultError::UnderflowError),
        }
    }
}

impl UserDeposit {
    /// What the depositor may withdraw.
    pub fn get_user_balance(&self) -> (r: u64)
        ensures
            r == self.amount,
    {
        self.amount
    }

    /// Adds `amount` to the record, first filling in a record that was never
    /// used (all-zero address) for `user`.
    pub fn add_deposited_amount(&mut self, user: &Identity, bump: u8, amount: u64) -> (r: Result<(), VaultError>)
        ensures
            ({
                let start = if is_unset(old(self).address@) {
                    UserDeposit { address: *user, amount: 0, bump }
                } else {
                    *old(self)
                };
                &&& start.amount + amount <= u64::MAX ==> r is Ok && *final(self) == (UserDeposit {
                    amount: (start.amount + amount) as u64,
                    ..start
                })
                &&& start.amount + amount > u64::MAX ==> r == Err::<(), _>(VaultError::OverflowError)
            }),
    {
        if self.address.is_unset() {
            self.address = *user;
            self.amount = 0;
            self.bump = bump;
        }
        match self.amount.checked_add(amount) {
            Some(a) => {
                self.amount = a;
                Ok(())
            },
            None => Err(VaultError::OverflowError),
        }
    }

    /// Takes `amount` from the record, failing on underflow.
    pub fn sub_deposited_amount(&mut self, amount: u64) -> (r: Result<(), VaultError>)
        ensures
            amount <= old(self).amount ==> r is Ok && *final(self) == (UserDeposit {
                amount: (old(self).amount - amount) as u64,
                ..*old(self)
            }),
            amount > old(self).amount ==> r == Err::<(), _>(VaultError::UnderflowError) && *final(self) == *old(
                self,
            ),
    {
        match self.amount.checked_sub(amount) {
            Some(a) => {
                self.amount = a;
                Ok(())
            },
            None => Err(VaultError::UnderflowError),
        }
    }
}

/// One account that an instruction names, with its access.
#[derive(Clone, Copy, Debug, PartialEq, Eq)]
pub struct AccountRef {
    pub address: Identity,
    pub is_signer: bool,
    pub is_writable: bool,
}

/// An instruction for the asset ledger: the program, the accounts in order,
/// and the data.
pub struct TransferInstruction {
    pub program_id: Identity,
    pub accounts: Vec<AccountRef>,
    pub data: Vec<u8>,
}

/// The ledger's tag for a transfer that checks the asset's decimals.
pub const TRANSFER_CHECKED_TAG: u8 = 12;

/// Namespace of the access-control records.
pub open spec fn whitelist_tag() -> Seq<u8> {
    seq![119u8, 104u8, 105u8, 116u8, 101u8, 108u8, 105u8, 115u8, 116u8]
}

/// Namespace of the account-resolution descriptor.
pub open spec fn extra_metas_tag() -> Seq<u8> {
    seq![
        101u8, 120u8, 116u8, 114u8, 97u8, 45u8, 97u8, 99u8, 99u8, 111u8, 117u8, 110u8, 116u8, 45u8, 109u8,
        101u8, 116u8, 97u8, 115u8,
    ]
}

/// Namespace of the vault's derived signing authority.
pub open spec fn vault_tag() -> Seq<u8> {
    seq![118u8, 97u8, 117u8, 108u8, 116u8]
}

/// The bytes of "whitelist".
pub fn whitelist_seed() -> (r: Vec<u8>)
    ensures
        r@ == whitelist_tag(),
{
    let r: Vec<u8> = vec![119u8, 104u8, 105u8, 116u8, 101u8, 108u8, 105u8, 115u8, 116u8];
    assert(r@ =~= whitelist_tag());
    r
}

/// The bytes of "extra-account-metas".
pub fn extra_metas_seed() -> (r: Vec<u8>)
    ensures
        r@ == extra_metas_tag(),
{
    let r: Vec<u8> = vec![
        101u8, 120u8, 116u8, 114u8, 97u8, 45u8, 97u8, 99u8, 99u8, 111u8, 117u8, 110u8, 116u8, 45u8, 109u8,
        101u8, 116u8, 97u8, 115u8,
    ];
    assert(r@ =~= extra_metas_tag());
    r
}

/// The bytes of "vault".
pub fn vault_seed() -> (r: Vec<u8>)
    ensures
        r@ == vault_tag(),
{
    let r: Vec<u8> = vec![118u8, 97u8, 117u8, 108u8, 116u8];
    assert(r@ =~= vault_tag());
    r
}

/// The seeds with which the vault's program proves the vault's signing
/// authority: the namespace and the bump found when the address was derived.
pub fn vault_signer_seeds(bump: u8) -> (r: Vec<Vec<u8>>)
    ensures
        r@.len() == 2,
        r@[0]@ == vault_tag(),
        r@[1]@ == seq![bump],
{
    let mut r: Vec<Vec<u8>> = Vec::new();
    r.push(vault_seed());
    let b: Vec<u8> = vec![bump];
    assert(b@ =~= seq![bump]);
    r.push(b);
    r
}

/// The data of a checked transfer: the tag, the amount in eight
/// little-endian bytes, and the asset's decimals.
pub fn transfer_checked_data(amount: u64, decimals: u8) -> (r: Vec<u8>)
    ensures
        r@.len() == 10,
        r@[0] == TRANSFER_CHECKED_TAG,
        le_value(r@.subrange(1, 9)) == amount,
        r@[9] == decimals,
{
    let mut data: Vec<u8> = vec![TRANSFER_CHECKED_TAG];
    let le = u64_to_le(amount);
    let mut i: usize = 0;
    while i < 8
        invariant
            0 <= i <= 8,
            le@.len() == 8,
            data@.len() == 1 + i,
            data@[0] == TRANSFER_CHECKED_TAG,
            data@.subrange(1, 1 + i as int) =~= le@.subrange(0, i as int),
        decreases 8 - i,
    {
        data.push(le[i]);
        i = i + 1;
    }
    assert(data@.subrange(1, 9) =~= le@);
    data.push(decimals);
    assert(data@.subrange(1, 9) =~= le@);
    data
}

/// The address of the access-control record of `owner` under the hook
/// program.
pub open spec fn whitelist_record(owner: Seq<u8>, hook_program: Seq<u8>) -> Option<(Seq<u8>, u8)> {
    program_address(record_seeds(whitelist_tag(), Some(owner)), hook_program)
}

/// The address of the account-resolution descriptor of `mint` under the hook
/// program.
pub open spec fn descriptor_record(mint: Seq<u8>, hook_program: Seq<u8>) -> Option<(Seq<u8>, u8)> {
    program_address(record_seeds(extra_metas_tag(), Some(mint)), hook_program)
}

pub open spec fn meta(address: Seq<u8>, is_signer: bool, is_writable: bool, a: AccountRef) -> bool {
    a.address@ == address && a.is_signer == is_signer && a.is_writable == is_writable
}

/// The parties of a transfer through the ledger's checked-transfer primitive.
pub struct TransferParties {
    pub token_program: Identity,
    pub hook_program: Identity,
    pub mint: Identity,
    pub decimals: u8,
    pub source_account: Identity,
    pub destination_account: Identity,
    pub authority: Identity,
    pub source_owner: Identity,
    pub destination_owner: Identity,
}

/// The checked-transfer instruction for `amount` between the parties, with
/// the extra accounts that the descriptor mandates: the descriptor itself,
/// the access-control records of both owners, and the hook program. `None`
/// where one of those addresses cannot be derived.
pub fn transfer_tokens(p: &TransferParties, amount: u64) -> (r: Option<TransferInstruction>)
    ensures
        r is Some <==> (descriptor_record(p.mint@, p.hook_program@) is Some && whitelist_record(
            p.source_owner@,
            p.hook_program@,
        ) is Some && whitelist_record(p.destination_owner@, p.hook_program@) is Some),
        r matches Some(ix) ==> {
            &&& ix.program_id == p.token_program
            &&& ix.data@.len() == 10
            &&& ix.data@[0] == TRANSFER_CHECKED_TAG
            &&& le_value(ix.data@.subrange(1, 9)) == amount
            &&& ix.data@[9] == p.decimals
            &&& ix.accounts@.len() == 8
            &&& meta(p.source_account@, false, true, ix.accounts@[0])
            &&& meta(p.mint@, false, false, ix.accounts@[1])
            &&& meta(p.destination_account@, false, true, ix.accounts@[2])
            &&& meta(p.authority@, true, true, ix.accounts@[3])
            &&& meta(descriptor_record(p.mint@, p.hook_program@).unwrap().0, false, false, ix.accounts@[4])
            &&& meta(whitelist_record(p.source_owner@, p.hook_program@).unwrap().0, false, false, ix.accounts@[5])
            &&& meta(
                whitelist_record(p.destination_owner@, p.hook_program@).unwrap().0,
                false,
                false,
                ix.accounts@[6],
            )
            &&& meta(p.hook_program@, false, false, ix.accounts@[7])
        },
{
    let extra = derive_address(&extra_metas_seed(), Some(&p.mint), &p.hook_program)?;
    let wl = whitelist_seed();
    let source_wl = derive_address(&wl, Some(&p.source_owner), &p.hook_program)?;
    let destination_wl = derive_address(&wl, Some(&p.destination_owner), &p.hook_program)?;
    let mut accounts: Vec<AccountRef> = Vec::new();
    accounts.push(AccountRef { address: p.source_account, is_signer: false, is_writable: true });
    accounts.push(AccountRef { address: p.mint, is_signer: false, is_writable: false });
    accounts.push(AccountRef { address: p.destination_account, is_signer: false, is_writable: true });
    accounts.push(AccountRef { address: p.authority, is_signer: true, is_writable: true });
    accounts.push(AccountRef { address: extra.0, is_signer: false, is_writable: false });
    accounts.push(AccountRef { address: source_wl.0, is_signer: false, is_writable: false });
    accounts.push(AccountRef { address: destination_wl.0, is_signer: false, is_writable: false });
    accounts.push(AccountRef { address: p.hook_program, is_signer: false, is_writable: false });
    Some(TransferInstruction { program_id: p.token_program, accounts, data: transfer_checked_data(amount, p.decimals) })
}

} // verus!
