use vstd::prelude::*;

use crate::custody::Custody;
use crate::errors::{VaultError, WhitelistTransferHookError};
use crate::hook::policy;

verus! {

/// Outside a genuine transfer (marker unset) the checkpoint rejects with
/// `NotTransferring`, whatever the memberships of either side.
pub proof fn lemma_reentrancy_rejected(source_member: bool, destination_member: bool)
    ensures
        policy(false, source_member, destination_member) == Err::<(), _>(
            WhitelistTransferHookError::NotTransferring,
        ),
{
}

/// Inside a genuine transfer: a member may send to anyone, a non-member may
/// send to a member, and a transfer between two non-members is rejected with
/// `NotWhitelisted`.
pub proof fn lemma_asymmetric_policy(source_member: bool, destination_member: bool)
    ensures
        source_member ==> policy(true, source_member, destination_member) is Ok,
        !source_member && destination_member ==> policy(true, source_member, destination_member) is Ok,
        !source_member && !destination_member ==> policy(true, source_member, destination_member) == Err::<
            (),
            _,
        >(WhitelistTransferHookError::NotWhitelisted),
{
}

/// Adding `x` to any membership set makes `x` a member, and removing it
/// again makes it a non-member.
pub proof fn lemma_whitelist_round_trip(members: Set<Seq<u8>>, x: Seq<u8>)
    ensures
        members.insert(x).contains(x),
        !members.insert(x).remove(x).contains(x),
        !members.remove(x).contains(x),
{
}

/// A deposit by an identity that is not a member, into a vault whose own
/// address is not a member, never succeeds; once the amount, arithmetic and
/// ledger checks pass, it fails with `NotWhitelisted`.
pub proof fn lemma_non_member_deposit_rejected(c: Custody, user: Seq<u8>, amount: u64)
    requires
        c.inv(),
        !c.spec_members().contains(user),
        !c.spec_members().contains(c.spec_vault_address()),
    ensures
        c.deposit_outcome(user, amount) is Err,
        c.spec_initialized() && user != c.spec_vault_address() && amount > 0 && c.spec_balance() + amount
            <= u64::MAX && c.spec_deposit(user) + amount <= u64::MAX && c.spec_holding(user) >= amount
            ==> c.deposit_outcome(user, amount) == Err::<(), _>(VaultError::NotWhitelisted),
{
}

} // verus!
