use vstd::prelude::*;

use crate::access::AccessControl;
use crate::balances::Balances;
use crate::descriptor::Descriptor;
use crate::errors::{VaultError, WhitelistTransferHookError};
use crate::hook::{policy, transfer_hook, TransferContext};
use crate::identity::{derive_address, program_address, record_seeds, Identity};
use crate::vault::{vault_seed, vault_tag, Vault};

verus! {

/// The vault's error for a checkpoint rejection.
pub open spec fn vault_error_of(e: WhitelistTransferHookError) -> VaultError {
    match e {
        WhitelistTransferHookError::Unauthorized => VaultError::Unauthorized,
        WhitelistTransferHookError::AlreadyExists => VaultError::AlreadyExists,
        WhitelistTransferHookError::InvalidWhitelistAccount => VaultError::InvalidWhitelistAccount,
        WhitelistTransferHookError::ExtraAccountMetaError => VaultError::InvalidVaultAccount,
        WhitelistTransferHookError::AlreadyInitialized => VaultError::AlreadyInitialized,
        WhitelistTransferHookError::NotTransferring => VaultError::NotTransferring,
        WhitelistTransferHookError::NotWhitelisted => VaultError::NotWhitelisted,
    }
}

pub fn to_vault_error(e: WhitelistTransferHookError) -> (r: VaultError)
    ensures
        r == vault_error_of(e),
{
    match e {
        WhitelistTransferHookError::Unauthorized => VaultError::Unauthorized,
        WhitelistTransferHookError::AlreadyExists => VaultError::AlreadyExists,
        WhitelistTransferHookError::InvalidWhitelistAccount => VaultError::InvalidWhitelistAccount,
        WhitelistTransferHookError::ExtraAccountMetaError => VaultError::InvalidVaultAccount,
        WhitelistTransferHookError::AlreadyInitialized => VaultError::AlreadyInitialized,
        WhitelistTransferHookError::NotTransferring => VaultError::NotTransferring,
        WhitelistTransferHookError::NotWhitelisted => VaultError::NotWhitelisted,
    }
}

/// The outcome of the checkpoint on a genuine transfer, as the vault reports
/// it.
pub open spec fn checkpoint(source_member: bool, destination_member: bool) -> Result<(), VaultError> {
    match policy(true, source_member, destination_member) {
        Ok(()) => Ok(()),
        Err(e) => Err(vault_error_of(e)),
    }
}

/// The custody vault together with what it is layered on: its access-control
/// store, its account-resolution descriptor, its per-depositor records, and
/// the asset ledger's holdings of the vault's asset class.
pub struct Custody {
    program: Identity,
    initialized: bool,
    vault: Vault,
    vault_address: Identity,
    whitelist: AccessControl,
    descriptor: Descriptor,
    deposits: Balances,
    holdings: Balances,
}

impl Custody {
    pub closed spec fn spec_initialized(&self) -> bool {
        self.initialized
    }

    pub closed spec fn spec_program(&self) -> Seq<u8> {
        self.program@
    }

    pub closed spec fn spec_admin(&self) -> Seq<u8> {
        self.vault.admin@
    }

    pub closed spec fn spec_mint(&self) -> Seq<u8> {
        self.vault.mint@
    }

    /// The vault's pooled balance.
    pub closed spec fn spec_balance(&self) -> nat {
        self.vault.balance as nat
    }

    /// The bump found when the vault's address was derived.
    pub closed spec fn spec_bump(&self) -> u8 {
        self.vault.bump
    }

    /// The vault's derived address, which owns the vault's asset account.
    pub closed spec fn spec_vault_address(&self) -> Seq<u8> {
        self.vault_address@
    }

    pub closed spec fn spec_members(&self) -> Set<Seq<u8>> {
        self.whitelist.member_set()
    }

    /// Whether `k` has a per-depositor record.
    pub closed spec fn spec_has_record(&self, k: Seq<u8>) -> bool {
        self.deposits.contains(k)
    }

    /// What `k` may withdraw.
    pub closed spec fn spec_deposit(&self, k: Seq<u8>) -> nat {
        self.deposits.amount_of(k)
    }

    /// The sum of all per-depositor records.
    pub closed spec fn spec_deposit_total(&self) -> nat {
        self.deposits.total()
    }

    /// What the ledger records as held by `k`'s asset account.
    pub closed spec fn spec_holding(&self, k: Seq<u8>) -> nat {
        self.holdings.amount_of(k)
    }

    pub closed spec fn spec_descriptor_initialized(&self) -> bool {
        self.descriptor.initialized
    }

    /// Well-formedness: the tables are keyed uniquely, and once the vault is
    /// set up its balance equals both the sum of the per-depositor records and
    /// the ledger's holding of the vault's asset account.
    pub closed spec fn inv(&self) -> bool {
        &&& self.whitelist.wf()
        &&& self.deposits.wf()
        &&& self.holdings.wf()
        &&& self.descriptor.initialized == self.initialized
        &&& self.initialized ==> self.vault.balance == self.deposits.total() && self.vault.balance
            == self.holdings.amount_of(self.vault_address@)
        &&& self.initialized ==> self.whitelist.admin_view() == self.vault.admin@
        &&& !self.initialized ==> self.deposits.is_empty_spec() && self.holdings.is_empty_spec()
    }

    /// The fields that only setup and administration change.
    pub open spec fn same_setup(&self, other: &Custody) -> bool {
        &&& self.spec_initialized() == other.spec_initialized()
        &&& self.spec_program() == other.spec_program()
        &&& self.spec_admin() == other.spec_admin()
        &&& self.spec_mint() == other.spec_mint()
        &&& self.spec_bump() == other.spec_bump()
        &&& self.spec_vault_address() == other.spec_vault_address()
        &&& self.spec_descriptor_initialized() == other.spec_descriptor_initialized()
    }

    /// Deposits, in the absence of external injections, account for the whole
    /// pooled balance, and the ledger holds exactly that balance for the vault.
    pub proof fn lemma_accounting(&self)
        requires
            self.inv(),
        ensures
            self.spec_initialized() ==> self.spec_balance() == self.spec_deposit_total(),
            self.spec_initialized() ==> self.spec_balance() == self.spec_holding(self.spec_vault_address()),
    {
    }

    /// A custody program at address `program`, not yet set up.
    pub fn new(program: Identity) -> (r: Custody)
        ensures
            r.inv(),
            !r.spec_initialized(),
            r.spec_program() == program@,
            r.spec_balance() == 0,
            r.spec_members() == Set::<Seq<u8>>::empty(),
            forall|k: Seq<u8>| !r.spec_has_record(k) && r.spec_deposit(k) == 0 && r.spec_holding(k) == 0,
    {
        let zero = Identity { bytes: [0u8; 32] };
        Custody {
            program,
            initialized: false,
            vault: Vault::initialize_vault(zero, zero, 0),
            vault_address: zero,
            whitelist: AccessControl::new(zero),
            descriptor: Descriptor::new(),
            deposits: Balances::new(),
            holdings: Balances::new(),
        }
    }

    /// Sets up the vault for asset class `mint`, administered by `admin`:
    /// derives the vault's address, creates an empty access-control store and
    /// writes the account-resolution descriptor. One time only.
    pub fn initialize(&mut self, admin: Identity, mint: Identity) -> (r: Result<(), VaultError>)
        requires
            old(self).inv(),
        ensures
            final(self).inv(),
            old(self).spec_initialized() ==> r == Err::<(), _>(VaultError::AlreadyInitialized) && *final(self)
                == *old(self),
            !old(self).spec_initialized() ==> (r is Ok <==> program_address(
                record_seeds(vault_tag(), None),
                old(self).spec_program(),
            ) is Some),
            r is Err ==> *final(self) == *old(self),
            r is Ok ==> {
                &&& final(self).spec_initialized()
                &&& final(self).spec_program() == old(self).spec_program()
                &&& final(self).spec_admin() == admin@
                &&& final(self).spec_mint() == mint@
                &&& final(self).spec_balance() == 0
                &&& final(self).spec_descriptor_initialized()
                &&& final(self).spec_members() == Set::<Seq<u8>>::empty()
                &&& program_address(record_seeds(vault_tag(), None), old(self).spec_program()) == Some(
                    (final(self).spec_vault_address(), final(self).spec_bump()),
                )
                &&& forall|k: Seq<u8>|
                    !final(self).spec_has_record(k) && final(self).spec_deposit(k) == 0 && final(self).spec_holding(k)
                        == 0
            },
    {
        if self.initialized {
            return Err(VaultError::AlreadyInitialized);
        }
        let derived = derive_address(&vault_seed(), None, &self.program);
        let (address, bump) = match derived {
            Some(found) => found,
            None => {
                return Err(VaultError::InvalidVaultAccount);
            },
        };
        proof {
            self.deposits.lemma_empty();
            self.holdings.lemma_empty();
        }
        let r = self.descriptor.init();
        assert(r is Ok);
        self.vault = Vault::initialize_vault(admin, mint, bump);
        self.vault_address = address;
        self.whitelist = AccessControl::new(admin);
        self.initialized = true;
        Ok(())
    }

    /// Whether `subject` is a member of the vault's access-control store.
    pub fn is_member(&self, subject: &Identity) -> (r: bool)
        ensures
            r == self.spec_members().contains(subject@),
    {
        self.whitelist.is_member(subject)
    }

    /// Records `subject` as a member; admin only.
    pub fn add_to_whitelist(&mut self, caller: &Identity, subject: Identity) -> (r: Result<(), VaultError>)
        requires
            old(self).inv(),
        ensures
            final(self).inv(),
            !old(self).spec_initialized() ==> r == Err::<(), _>(VaultError::InvalidVaultAccount),
            old(self).spec_initialized() && caller@ != old(self).spec_admin() ==> r == Err::<(), _>(
                VaultError::Unauthorized,
            ),
            old(self).spec_initialized() && caller@ == old(self).spec_admin() && old(self).spec_members().contains(
                subject@,
            ) ==> r == Err::<(), _>(VaultError::AlreadyExists),
            old(self).spec_initialized() && caller@ == old(self).spec_admin() && !old(self).spec_members().contains(
                subject@,
            ) ==> r is Ok,
            r is Err ==> *final(self) == *old(self),
            r is Ok ==> final(self).spec_members() == old(self).spec_members().insert(subject@),
            final(self).same_setup(old(self)),
            final(self).spec_balance() == old(self).spec_balance(),
            forall|k: Seq<u8>|
                final(self).spec_deposit(k) == old(self).spec_deposit(k) && final(self).spec_holding(k) == old(self).spec_holding(k) && final(self).spec_has_record(k) == old(self).spec_has_record(k),
    {
        if !self.initialized {
            return Err(VaultError::InvalidVaultAccount);
        }
        if !caller.same(&self.vault.admin) {
            return Err(VaultError::Unauthorized);
        }
        if self.whitelist.is_member(&subject) {
            return Err(VaultError::AlreadyExists);
        }
        let r = self.whitelist.add_to_whitelist(caller, subject);
        assert(r is Ok);
        Ok(())
    }

    /// Deletes the membership record of `subject`; admin only.
    pub fn remove_from_whitelist(&mut self, caller: &Identity, subject: &Identity) -> (r: Result<(), VaultError>)
        requires
            old(self).inv(),
        ensures
            final(self).inv(),
            !old(self).spec_initialized() ==> r == Err::<(), _>(VaultError::InvalidVaultAccount),
            old(self).spec_initialized() && caller@ != old(self).spec_admin() ==> r == Err::<(), _>(
                VaultError::Unauthorized,
            ),
            old(self).spec_initialized() && caller@ == old(self).spec_admin() && !old(self).spec_members().contains(subject@) ==> r == Err::<(), _>(VaultError::InvalidWhitelistAccount),
            old(self).spec_initialized() && caller@ == old(self).spec_admin() && old(self).spec_members().contains(
                subject@,
            ) ==> r is Ok,
            r is Err ==> *final(self) == *old(self),
            r is Ok ==> final(self).spec_members() == old(self).spec_members().remove(subject@),
            final(self).same_setup(old(self)),
            final(self).spec_balance() == old(self).spec_balance(),
            forall|k: Seq<u8>|
                final(self).spec_deposit(k) == old(self).spec_deposit(k) && final(self).spec_holding(k) == old(self).spec_holding(k) && final(self).spec_has_record(k) == old(self).spec_has_record(k),
    {
        if !self.initialized {
            return Err(VaultError::InvalidVaultAccount);
        }
        if !caller.same(&self.vault.admin) {
            return Err(VaultError::Unauthorized);
        }
        if !self.whitelist.is_member(subject) {
            return Err(VaultError::InvalidWhitelistAccount);
        }
        let r = self.whitelist.remove_from_whitelist(caller, subject);
        assert(r is Ok);
        Ok(())
    }

    /// What a deposit of `amount` by `user` yields, in the order the checks
    /// run: setup, amount, the vault's and the record's checked additions,
    /// the ledger's balance check, then the checkpoint.
    pub open spec fn deposit_outcome(&self, user: Seq<u8>, amount: u64) -> Result<(), VaultError> {
        if !self.spec_initialized() || user == self.spec_vault_address() {
            Err(VaultError::InvalidVaultAccount)
        } else if amount == 0 {
            Err(VaultError::InvalidAmount)
        } else if self.spec_balance() + amount > u64::MAX {
            Err(VaultError::OverflowError)
        } else if self.spec_deposit(user) + amount > u64::MAX {
            Err(VaultError::OverflowError)
        } else if self.spec_holding(user) < amount {
            Err(VaultError::InsufficientFunds)
        } else {
            checkpoint(self.spec_members().contains(user), self.spec_members().contains(self.spec_vault_address()))
        }
    }

    /// Moves `amount` from `user`'s asset account into the vault's, through
    /// the ledger's transfer (which invokes the checkpoint with the marker
    /// set), and credits the vault and the user's record. All or nothing.
    pub fn deposit(&mut self, user: &Identity, amount: u64) -> (r: Result<(), VaultError>)
        requires
            old(self).inv(),
        ensures
            final(self).inv(),
            r == old(self).deposit_outcome(user@, amount),
            r is Err ==> *final(self) == *old(self),
            r is Ok ==> {
                &&& final(self).same_setup(old(self))
                &&& final(self).spec_members() == old(self).spec_members()
                &&& final(self).spec_balance() == old(self).spec_balance() + amount
                &&& final(self).spec_deposit(user@) == old(self).spec_deposit(user@) + amount
                &&& final(self).spec_has_record(user@)
                &&& final(self).spec_holding(user@) == old(self).spec_holding(user@) - amount
                &&& final(self).spec_holding(old(self).spec_vault_address()) == old(self).spec_holding(
                    old(self).spec_vault_address(),
                ) + amount
                &&& forall|k: Seq<u8>|
                    k != user@ ==> final(self).spec_deposit(k) == old(self).spec_deposit(k) && final(self).spec_has_record(k) == old(self).spec_has_record(k)
                &&& forall|k: Seq<u8>|
                    k != user@ && k != old(self).spec_vault_address() ==> final(self).spec_holding(k) == old(self).spec_holding(k)
            },
    {
        if !self.initialized || user.same(&self.vault_address) {
            return Err(VaultError::InvalidVaultAccount);
        }
        if amount == 0 {
            return Err(VaultError::InvalidAmount);
        }
        let new_balance = match self.vault.balance.checked_add(amount) {
            Some(b) => b,
            None => {
                return Err(VaultError::OverflowError);
            },
        };
        let new_record = match self.deposits.get(user).checked_add(amount) {
            Some(a) => a,
            None => {
                return Err(VaultError::OverflowError);
            },
        };
        let user_holding = self.holdings.get(user);
        if user_holding < amount {
            return Err(VaultError::InsufficientFunds);
        }
        let ctx = TransferContext { transferring: true };
        match transfer_hook(&self.whitelist, &ctx, amount, user, &self.vault_address) {
            Ok(()) => {},
            Err(e) => {
                return Err(to_vault_error(e));
            },
        }
        let vault_holding = self.holdings.get(&self.vault_address);
        let r = self.vault.add_vault_amount(amount);
        assert(r is Ok);
        self.deposits.set(user, new_record);
        self.holdings.set(user, user_holding - amount);
        let vault_address = self.vault_address;
        self.holdings.set(&vault_address, vault_holding + amount);
        Ok(())
    }

    /// What a withdrawal of `amount` by `user` yields, in the order the checks
    /// run: setup, the record, amount, entitlement, the vault's checked
    /// subtraction, the ledger's checks, then the checkpoint.
    pub open spec fn withdraw_outcome(&self, user: Seq<u8>, amount: u64) -> Result<(), VaultError> {
        if !self.spec_initialized() || user == self.spec_vault_address() {
            Err(VaultError::InvalidVaultAccount)
        } else if !self.spec_has_record(user) {
            Err(VaultError::RecordNotFound)
        } else if amount == 0 {
            Err(VaultError::InvalidAmount)
        } else if amount > self.spec_deposit(user) {
            Err(VaultError::InsufficientFunds)
        } else if amount > self.spec_balance() {
            Err(VaultError::UnderflowError)
        } else if self.spec_holding(user) + amount > u64::MAX {
            Err(VaultError::OverflowError)
        } else {
            checkpoint(self.spec_members().contains(self.spec_vault_address()), self.spec_members().contains(user))
        }
    }

    /// Moves `amount` from the vault's asset account back to `user`'s, with
    /// the vault's derived authority as signer, and debits the vault and the
    /// user's record. All or nothing.
    pub fn withdraw(&mut self, user: &Identity, amount: u64) -> (r: Result<(), VaultError>)
        requires
            old(self).inv(),
        ensures
            final(self).inv(),
            r == old(self).withdraw_outcome(user@, amount),
            r is Err ==> *final(self) == *old(self),
            r is Ok ==> {
                &&& final(self).same_setup(old(self))
                &&& final(self).spec_members() == old(self).spec_members()
                &&& final(self).spec_balance() == old(self).spec_balance() - amount
                &&& final(self).spec_deposit(user@) == old(self).spec_deposit(user@) - amount
                &&& final(self).spec_has_record(user@)
                &&& final(self).spec_holding(user@) == old(self).spec_holding(user@) + amount
                &&& final(self).spec_holding(old(self).spec_vault_address()) == old(self).spec_holding(
                    old(self).spec_vault_address(),
                ) - amount
                &&& forall|k: Seq<u8>|
                    k != user@ ==> final(self).spec_deposit(k) == old(self).spec_deposit(k) && final(self).spec_has_record(k) == old(self).spec_has_record(k)
                &&& forall|k: Seq<u8>|
                    k != user@ && k != old(self).spec_vault_address() ==> final(self).spec_holding(k) == old(self).spec_holding(k)
            },
    {
        if !self.initialized || user.same(&self.vault_address) {
            return Err(VaultError::InvalidVaultAccount);
        }
        if !self.deposits.has(user) {
            return Err(VaultError::RecordNotFound);
        }
        let user_balance = self.deposits.get(user);
        if amount == 0 {
            return Err(VaultError::InvalidAmount);
        }
        if amount > user_balance {
            return Err(VaultError::InsufficientFunds);
        }
        if amount > self.vault.balance {
            return Err(VaultError::UnderflowError);
        }
        let user_holding = self.holdings.get(user);
        let new_holding = match user_holding.checked_add(amount) {
            Some(h) => h,
            None => {
                return Err(VaultError::OverflowError);
            },
        };
        let ctx = TransferContext { transferring: true };
        match transfer_hook(&self.whitelist, &ctx, amount, &self.vault_address, user) {
            Ok(()) => {},
            Err(e) => {
                return Err(to_vault_error(e));
            },
        }
        let vault_holding = self.holdings.get(&self.vault_address);
        let r = self.vault.sub_vault_amount(amount);
        assert(r is Ok);
        self.deposits.set(user, user_balance - amount);
        self.holdings.set(user, new_holding);
        let vault_address = self.vault_address;
        self.holdings.set(&vault_address, vault_holding - amount);
        Ok(())
    }

    /// What the admin's issuance of `amount` new units to `user` yields.
    pub open spec fn mint_outcome(&self, caller: Seq<u8>, mint: Seq<u8>, user: Seq<u8>, amount: u64) -> Result<
        (),
        VaultError,
    > {
        if !self.spec_initialized() {
            Err(VaultError::InvalidVaultAccount)
        } else if caller != self.spec_admin() {
            Err(VaultError::Unauthorized)
        } else if mint != self.spec_mint() {
            Err(VaultError::InvalidMint)
        } else if user == self.spec_vault_address() {
            Err(VaultError::InvalidVaultAccount)
        } else if self.spec_holding(user) + amount > u64::MAX {
            Err(VaultError::OverflowError)
        } else {
            Ok(())
        }
    }

    /// Issues `amount` new units of the vault's asset class into `user`'s
    /// asset account; only the vault's admin, and only for the vault's asset
    /// class.
    pub fn mint_issue(&mut self, caller: &Identity, mint: &Identity, user: &Identity, amount: u64) -> (r: Result<
        (),
        VaultError,
    >)
        requires
            old(self).inv(),
        ensures
            final(self).inv(),
            r == old(self).mint_outcome(caller@, mint@, user@, amount),
            r is Err ==> *final(self) == *old(self),
            r is Ok ==> {
                &&& final(self).same_setup(old(self))
                &&& final(self).spec_members() == old(self).spec_members()
                &&& final(self).spec_balance() == old(self).spec_balance()
                &&& final(self).spec_holding(user@) == old(self).spec_holding(user@) + amount
                &&& forall|k: Seq<u8>|
                    final(self).spec_deposit(k) == old(self).spec_deposit(k) && final(self).spec_has_record(k)
                        == old(self).spec_has_record(k)
                &&& forall|k: Seq<u8>| k != user@ ==> final(self).spec_holding(k) == old(self).spec_holding(k)
            },
    {
        if !self.initialized {
            return Err(VaultError::InvalidVaultAccount);
        }
        if !caller.same(&self.vault.admin) {
            return Err(VaultError::Unauthorized);
        }
        if !mint.same(&self.vault.mint) {
            return Err(VaultError::InvalidMint);
        }
        if user.same(&self.vault_address) {
            return Err(VaultError::InvalidVaultAccount);
        }
        let holding = self.holdings.get(user);
        let new_holding = match holding.checked_add(amount) {
            Some(h) => h,
            None => {
                return Err(VaultError::OverflowError);
            },
        };
        self.holdings.set(user, new_holding);
        Ok(())
    }

    /// What a ledger transfer of `amount` from `owner` to `destination`
    /// yields: the ledger's balance checks, then the checkpoint. Transfers
    /// into or out of the vault's asset account go through deposit and
    /// withdraw only.
    pub open spec fn transfer_outcome(&self, owner: Seq<u8>, destination: Seq<u8>, amount: u64) -> Result<
        (),
        VaultError,
    > {
        if !self.spec_initialized() || owner == self.spec_vault_address() || destination
            == self.spec_vault_address() {
            Err(VaultError::InvalidVaultAccount)
        } else if self.spec_holding(owner) < amount {
            Err(VaultError::InsufficientFunds)
        } else if owner != destination && self.spec_holding(destination) + amount > u64::MAX {
            Err(VaultError::OverflowError)
        } else {
            checkpoint(self.spec_members().contains(owner), self.spec_members().contains(destination))
        }
    }

    /// Moves `amount` of the vault's asset class between two holders through
    /// the ledger, which invokes the checkpoint. All or nothing.
    pub fn transfer(&mut self, owner: &Identity, destination: &Identity, amount: u64) -> (r: Result<(), VaultError>)
        requires
            old(self).inv(),
        ensures
            final(self).inv(),
            r == old(self).transfer_outcome(owner@, destination@, amount),
            r is Err ==> *final(self) == *old(self),
            r is Ok ==> {
                &&& final(self).same_setup(old(self))
                &&& final(self).spec_members() == old(self).spec_members()
                &&& final(self).spec_balance() == old(self).spec_balance()
                &&& owner@ != destination@ ==> final(self).spec_holding(owner@) == old(self).spec_holding(owner@)
                    - amount && final(self).spec_holding(destination@) == old(self).spec_holding(destination@)
                    + amount
                &&& forall|k: Seq<u8>|
                    final(self).spec_deposit(k) == old(self).spec_deposit(k) && final(self).spec_has_record(k)
                        == old(self).spec_has_record(k)
                &&& forall|k: Seq<u8>|
                    k != owner@ && k != destination@ ==> final(self).spec_holding(k) == old(self).spec_holding(k)
                &&& owner@ == destination@ ==> final(self).spec_holding(owner@) == old(self).spec_holding(owner@)
            },
    {
        if !self.initialized || owner.same(&self.vault_address) || destination.same(&self.vault_address) {
            return Err(VaultError::InvalidVaultAccount);
        }
        let source_holding = self.holdings.get(owner);
        if source_holding < amount {
            return Err(VaultError::InsufficientFunds);
        }
        let same = owner.same(destination);
        let destination_holding = self.holdings.get(destination);
        if !same && destination_holding > u64::MAX - amount {
            return Err(VaultError::OverflowError);
        }
        let ctx = TransferContext { transferring: true };
        match transfer_hook(&self.whitelist, &ctx, amount, owner, destination) {
            Ok(()) => {},
            Err(e) => {
                return Err(to_vault_error(e));
            },
        }
        if !same {
            self.holdings.set(owner, source_holding - amount);
            self.holdings.set(destination, destination_holding + amount);
        }
        Ok(())
    }

    pub fn is_initialized(&self) -> (r: bool)
        ensures
            r == self.spec_initialized(),
    {
        self.initialized
    }

    /// The vault's record.
    pub fn vault(&self) -> (r: Vault)
        ensures
            r.admin@ == self.spec_admin(),
            r.mint@ == self.spec_mint(),
            r.balance == self.spec_balance(),
            r.bump == self.spec_bump(),
    {
        self.vault
    }

    /// The vault's pooled balance.
    pub fn balance(&self) -> (r: u64)
        ensures
            r == self.spec_balance(),
    {
        self.vault.balance
    }

    /// The vault's derived address.
    pub fn vault_address(&self) -> (r: Identity)
        ensures
            r@ == self.spec_vault_address(),
    {
        self.vault_address
    }

    /// What `user` may withdraw.
    pub fn deposit_of(&self, user: &Identity) -> (r: u64)
        requires
            self.inv(),
        ensures
            r == self.spec_deposit(user@),
    {
        self.deposits.get(user)
    }

    /// Whether `user` has a per-depositor record.
    pub fn has_record(&self, user: &Identity) -> (r: bool)
        requires
            self.inv(),
        ensures
            r == self.spec_has_record(user@),
    {
        self.deposits.has(user)
    }

    /// What the ledger records as held by `owner`'s asset account.
    pub fn holding_of(&self, owner: &Identity) -> (r: u64)
        requires
            self.inv(),
        ensures
            r == self.spec_holding(owner@),
    {
        self.holdings.get(owner)
    }

    /// The published account-resolution descriptor.
    pub fn descriptor(&self) -> (r: &Descriptor)
        ensures
            r.initialized == self.spec_descriptor_initialized(),
    {
        &self.descriptor
    }
}

} // verus!
