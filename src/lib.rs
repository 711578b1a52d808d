//! A custody vault for a fungible asset whose every transfer passes a
//! whitelist checkpoint, with the account-resolution descriptor the ledger
//! needs to invoke it; plus a small serializer-generic storage slot and the
//! fundraiser's record and instruction decoding.
use vstd::prelude::*;

pub mod access;
pub mod balances;
pub mod bytes;
pub mod custody;
pub mod descriptor;
pub mod errors;
pub mod fundraiser;
pub mod hook;
pub mod identity;
pub mod laws;
pub mod person;
pub mod serializer;
pub mod storage;
pub mod vault;

verus! {

} // verus!
