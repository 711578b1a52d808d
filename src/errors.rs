use vstd::prelude::*;

verus! {

/// Failures of the access-control store and of the transfer checkpoint.
#[derive(Clone, Copy, Debug, PartialEq, Eq, Structural)]
pub enum WhitelistTransferHookError {
    /// The caller is not the stored admin.
    Unauthorized,
    /// The subject already has a membership record.
    AlreadyExists,
    /// The subject has no membership record.
    InvalidWhitelistAccount,
    /// The account-resolution descriptor could not be built or sized.
    ExtraAccountMetaError,
    /// The descriptor was already initialized.
    AlreadyInitialized,
    /// The checkpoint was invoked outside a genuine transfer.
    NotTransferring,
    /// Neither side of the transfer is a member.
    NotWhitelisted,
}

/// Failures of the custody vault.
#[derive(Clone, Copy, Debug, PartialEq, Eq, Structural)]
pub enum VaultError {
    /// The vault's address could not be derived, or the vault is not set up.
    InvalidVaultAccount,
    /// The subject has no membership record.
    InvalidWhitelistAccount,
    /// The depositor has no deposit record.
    RecordNotFound,
    /// The caller is not the vault's admin.
    Unauthorized,
    /// The asset class does not match the vault's.
    InvalidMint,
    /// The vault was already initialized.
    AlreadyInitialized,
    /// The subject already has a membership record.
    AlreadyExists,
    /// A zero amount was requested.
    InvalidAmount,
    /// The amount exceeds what the depositor may withdraw, or what the source
    /// account holds.
    InsufficientFunds,
    /// A checked addition overflowed.
    OverflowError,
    /// A checked subtraction underflowed.
    UnderflowError,
    /// The transfer checkpoint rejected a transfer between non-members.
    NotWhitelisted,
    /// The transfer checkpoint was invoked outside a genuine transfer.
    NotTransferring,
}

} // verus!
