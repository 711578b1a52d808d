use spl_discriminator::ArrayDiscriminator;
use vstd::prelude::*;

use crate::access::AccessControl;
use crate::bytes::{le_to_u64, le_value};
use crate::errors::WhitelistTransferHookError;
use crate::identity::Identity;

verus! {

/// What the ledger hands the checkpoint about the transfer in progress: the
/// reentrancy marker of the source asset account, which the ledger sets only
/// while it executes a genuine transfer.
#[derive(Clone, Copy, Debug, PartialEq, Eq, Structural)]
pub struct TransferContext {
    pub transferring: bool,
}

/// The checkpoint's decision: reject outside a genuine transfer; otherwise an
/// approved sender may send to anyone, and any sender may send to an approved
/// recipient. The amount takes no part in it.
pub open spec fn policy(transferring: bool, source_member: bool, destination_member: bool) -> Result<
    (),
    WhitelistTransferHookError,
> {
    if !transferring {
        Err(WhitelistTransferHookError::NotTransferring)
    } else if !source_member && !destination_member {
        Err(WhitelistTransferHookError::NotWhitelisted)
    } else {
        Ok(())
    }
}

/// Rejects an invocation whose reentrancy marker is unset.
pub fn check_is_transferring(ctx: &TransferContext) -> (r: Result<(), WhitelistTransferHookError>)
    ensures
        ctx.transferring ==> r is Ok,
        !ctx.transferring ==> r == Err::<(), _>(WhitelistTransferHookError::NotTransferring),
{
    if ctx.transferring {
        Ok(())
    } else {
        Err(WhitelistTransferHookError::NotTransferring)
    }
}

/// The checkpoint's decision on already-resolved memberships.
pub fn authorize(ctx: &TransferContext, amount: u64, source_member: bool, destination_member: bool) -> (r: Result<
    (),
    WhitelistTransferHookError,
>)
    ensures
        r == policy(ctx.transferring, source_member, destination_member),
{
    check_is_transferring(ctx)?;
    if !source_member {
        if !destination_member {
            return Err(WhitelistTransferHookError::NotWhitelisted);
        }
    }
    Ok(())
}

/// The checkpoint as the ledger invokes it: looks up both owners in the
/// access-control store and decides.
pub fn transfer_hook(
    store: &AccessControl,
    ctx: &TransferContext,
    amount: u64,
    source_owner: &Identity,
    destination_owner: &Identity,
) -> (r: Result<(), WhitelistTransferHookError>)
    ensures
        r == policy(
            ctx.transferring,
            store.member_set().contains(source_owner@),
            store.member_set().contains(destination_owner@),
        ),
{
    check_is_transferring(ctx)?;
    let source_is_whitelisted = store.is_member(source_owner);
    let destination_is_whitelisted = store.is_member(destination_owner);
    authorize(ctx, amount, source_is_whitelisted, destination_is_whitelisted)
}

/// A transfer policy: the decision that the ledger asks for on every
/// transfer of an asset class that registered it.
pub trait TransferPolicy {
    /// The decision on a transfer of `amount` between the two owners.
    spec fn decision(&self, ctx: TransferContext, amount: u64, source: Seq<u8>, destination: Seq<u8>) -> Result<
        (),
        WhitelistTransferHookError,
    >;

    fn authorize_transfer(
        &self,
        ctx: &TransferContext,
        amount: u64,
        source_owner: &Identity,
        destination_owner: &Identity,
    ) -> (r: Result<(), WhitelistTransferHookError>)
        ensures
            r == self.decision(*ctx, amount, source_owner@, destination_owner@),
    ;
}

/// The whitelist policy: the checkpoint over the access-control store.
impl TransferPolicy for AccessControl {
    open spec fn decision(&self, ctx: TransferContext, amount: u64, source: Seq<u8>, destination: Seq<u8>) -> Result<
        (),
        WhitelistTransferHookError,
    > {
        policy(ctx.transferring, self.member_set().contains(source), self.member_set().contains(destination))
    }

    fn authorize_transfer(
        &self,
        ctx: &TransferContext,
        amount: u64,
        source_owner: &Identity,
        destination_owner: &Identity,
    ) -> (r: Result<(), WhitelistTransferHookError>) {
        transfer_hook(self, ctx, amount, source_owner, destination_owner)
    }
}

/// The eight-byte instruction discriminator that a hash input names.
pub uninterp spec fn discriminator_of(hash_input: Seq<char>) -> Seq<u8>;

/// Relies on `ArrayDiscriminator::new_with_hash_input`: the first eight bytes
/// of the SHA-256 digest of the hash input.
#[verifier::external_body]
fn discriminator_for(hash_input: &str) -> (r: Vec<u8>)
    ensures
        r@ == discriminator_of(hash_input@),
        r@.len() == 8,
{
    ArrayDiscriminator::new_with_hash_input(hash_input).as_slice().to_vec()
}

/// The amount that an execute instruction carries, given the execute
/// discriminator: the instruction is the discriminator followed by the amount
/// in eight little-endian bytes (more bytes may follow).
pub fn parse_execute(data: &[u8], discriminator: &[u8]) -> (r: Option<u64>)
    requires
        discriminator@.len() == 8,
    ensures
        r is Some <==> (data@.len() >= 16 && data@.subrange(0, 8) == discriminator@),
        r matches Some(amount) ==> amount == le_value(data@.subrange(8, 16)),
{
    if data.len() < 16 {
        return None;
    }
    let mut i: usize = 0;
    while i < 8
        invariant
            0 <= i <= 8,
            data@.len() >= 16,
            discriminator@.len() == 8,
            forall|j: int| 0 <= j < i ==> data@[j] == discriminator@[j],
        decreases 8 - i,
    {
        if data[i] != discriminator[i] {
            assert(data@.subrange(0, 8)[i as int] != discriminator@[i as int]);
            return None;
        }
        i = i + 1;
    }
    assert(data@.subrange(0, 8) =~= discriminator@);
    let rest = slice_from(data, 8);
    assert(rest@.subrange(0, 8) =~= data@.subrange(8, 16));
    Some(le_to_u64(rest))
}

fn slice_from(data: &[u8], start: usize) -> (r: &[u8])
    requires
        start <= data@.len(),
    ensures
        r@ == data@.subrange(start as int, data@.len() as int),
{
    let (_, rest) = data.split_at(start);
    rest
}

/// The hash input that names the transfer-hook interface's execute
/// instruction.
pub const EXECUTE_HASH_INPUT: &'static str = "spl-transfer-hook-interface:execute";

pub open spec fn execute_hash_input() -> Seq<char> {
    EXECUTE_HASH_INPUT@
}

/// The amount of a transfer-hook execute instruction, or `None` where the
/// data is not one.
pub fn decode_execute(data: &[u8]) -> (r: Option<u64>)
    ensures
        r is Some <==> (data@.len() >= 16 && data@.subrange(0, 8) == discriminator_of(execute_hash_input())),
        r matches Some(amount) ==> amount == le_value(data@.subrange(8, 16)),
{
    let tag = discriminator_for(EXECUTE_HASH_INPUT);
    parse_execute(data, tag.as_slice())
}

} // verus!
