use vstd::prelude::*;

use crate::errors::WhitelistTransferHookError;
use crate::identity::Identity;

verus! {

/// The access-control store: an admin and the set of member identities. A
/// member's record exists exactly while the identity is in the set.
pub struct AccessControl {
    admin: Identity,
    members: Vec<Identity>,
}

/// Whether no identity occurs twice in `s`.
pub open spec fn distinct(s: Seq<Identity>) -> bool {
    forall|i: int, j: int| 0 <= i < s.len() && 0 <= j < s.len() && i != j ==> s[i]@ != s[j]@
}

/// The identities that occur in `s`, as bytes.
pub open spec fn identity_set(s: Seq<Identity>) -> Set<Seq<u8>> {
    Set::new(|k: Seq<u8>| exists|i: int| 0 <= i < s.len() && s[i]@ == k)
}

impl AccessControl {
    /// Sets up the store with `admin`, which must be the program's upgrade
    /// authority.
    pub fn initialize_config(admin: Identity, upgrade_authority: Option<Identity>) -> (r: Result<
        AccessControl,
        WhitelistTransferHookError,
    >)
        ensures
            (upgrade_authority matches Some(a) && a@ == admin@) ==> (r matches Ok(s) && s.wf() && s.admin_view() == admin@
                && s.member_set() == Set::<Seq<u8>>::empty()),
            !(upgrade_authority matches Some(a) && a@ == admin@) ==> r == Err::<AccessControl, WhitelistTransferHookError>(
                WhitelistTransferHookError::Unauthorized,
            ),
    {
        match upgrade_authority {
            Some(a) => {
                if a.same(&admin) {
                    Ok(AccessControl::new(admin))
                } else {
                    Err(WhitelistTransferHookError::Unauthorized)
                }
            },
            None => Err(WhitelistTransferHookError::Unauthorized),
        }
    }

    pub closed spec fn wf(&self) -> bool {
        distinct(self.members@)
    }

    pub closed spec fn admin_view(&self) -> Seq<u8> {
        self.admin@
    }

    /// The member identities.
    pub closed spec fn member_set(&self) -> Set<Seq<u8>> {
        identity_set(self.members@)
    }

    /// An empty store administered by `admin`.
    pub fn new(admin: Identity) -> (r: AccessControl)
        ensures
            r.wf(),
            r.admin_view() == admin@,
            r.member_set() == Set::<Seq<u8>>::empty(),
    {
        let r = AccessControl { admin, members: Vec::new() };
        assert(r.member_set() =~= Set::<Seq<u8>>::empty());
        r
    }

    pub fn admin(&self) -> (r: Identity)
        ensures
            r@ == self.admin_view(),
    {
        self.admin
    }

    /// Whether `subject` has a membership record.
    pub fn is_member(&self, subject: &Identity) -> (r: bool)
        ensures
            r == self.member_set().contains(subject@),
    {
        match self.position(subject) {
            Some(_) => true,
            None => false,
        }
    }

    fn position(&self, subject: &Identity) -> (r: Option<usize>)
        ensures
            r matches Some(i) ==> i < self.members@.len() && self.members@[i as int]@ == subject@,
            r is None ==> !self.member_set().contains(subject@),
    {
        let mut i: usize = 0;
        while i < self.members.len()
            invariant
                0 <= i <= self.members@.len(),
                forall|j: int| 0 <= j < i ==> self.members@[j]@ != subject@,
            decreases self.members@.len() - i,
        {
            if self.members[i].same(subject) {
                return Some(i);
            }
            i = i + 1;
        }
        None
    }

    /// Records `subject` as a member. Only the admin may do so, and only once
    /// per subject.
    pub fn add_to_whitelist(&mut self, caller: &Identity, subject: Identity) -> (r: Result<(), WhitelistTransferHookError>)
        requires
            old(self).wf(),
        ensures
            final(self).wf(),
            final(self).admin_view() == old(self).admin_view(),
            caller@ != old(self).admin_view() ==> r == Err::<(), _>(WhitelistTransferHookError::Unauthorized),
            caller@ == old(self).admin_view() && old(self).member_set().contains(subject@) ==> r == Err::<(), _>(
                WhitelistTransferHookError::AlreadyExists,
            ),
            caller@ == old(self).admin_view() && !old(self).member_set().contains(subject@) ==> r is Ok,
            r is Ok ==> final(self).member_set() == old(self).member_set().insert(subject@),
            r is Err ==> final(self).member_set() == old(self).member_set(),
    {
        if !caller.same(&self.admin) {
            return Err(WhitelistTransferHookError::Unauthorized);
        }
        if self.is_member(&subject) {
            return Err(WhitelistTransferHookError::AlreadyExists);
        }
        let ghost before = self.members@;
        self.members.push(subject);
        assert(self.members@ =~= before.push(subject));
        assert(forall|i: int| 0 <= i < before.len() ==> #[trigger] self.members@[i] == before[i]);
        assert(self.member_set() =~= identity_set(before).insert(subject@)) by {
            assert forall|k: Seq<u8>| #[trigger] self.member_set().contains(k) implies identity_set(before).insert(
                subject@,
            ).contains(k) by {
                let i = choose|i: int| 0 <= i < self.members@.len() && self.members@[i]@ == k;
                if i < before.len() {
                    assert(identity_set(before).contains(k));
                }
            }
            assert forall|k: Seq<u8>| #[trigger] identity_set(before).insert(subject@).contains(k) implies self.member_set().contains(
                k,
            ) by {
                if k == subject@ {
                    assert(self.members@[before.len() as int]@ == k);
                } else {
                    let i = choose|i: int| 0 <= i < before.len() && before[i]@ == k;
                    assert(self.members@[i]@ == k);
                }
            }
        }
        Ok(())
    }

    /// Deletes the membership record of `subject`. Only the admin may do so.
    pub fn remove_from_whitelist(&mut self, caller: &Identity, subject: &Identity) -> (r: Result<(), WhitelistTransferHookError>)
        requires
            old(self).wf(),
        ensures
            final(self).wf(),
            final(self).admin_view() == old(self).admin_view(),
            caller@ != old(self).admin_view() ==> r == Err::<(), _>(WhitelistTransferHookError::Unauthorized),
            caller@ == old(self).admin_view() && !old(self).member_set().contains(subject@) ==> r == Err::<(), _>(
                WhitelistTransferHookError::InvalidWhitelistAccount,
            ),
            caller@ == old(self).admin_view() && old(self).member_set().contains(subject@) ==> r is Ok,
            r is Ok ==> final(self).member_set() == old(self).member_set().remove(subject@),
            r is Err ==> final(self).member_set() == old(self).member_set(),
    {
        if !caller.same(&self.admin) {
            return Err(WhitelistTransferHookError::Unauthorized);
        }
        let found = self.position(subject);
        match found {
            None => Err(WhitelistTransferHookError::InvalidWhitelistAccount),
            Some(i) => {
                let ghost before = self.members@;
                self.members.remove(i);
                let ghost after = self.members@;
                assert(after =~= before.remove(i as int));
                assert(forall|j: int| 0 <= j < i ==> #[trigger] after[j] == before[j]);
                assert(forall|j: int| i <= j < after.len() ==> #[trigger] after[j] == before[j + 1]);
                assert(distinct(after)) by {
                    assert forall|a: int, b: int|
                        0 <= a < after.len() && 0 <= b < after.len() && a != b implies #[trigger] after[a]@ != #[trigger] after[b]@ by {
                        let a0 = if a < i { a } else { a + 1 };
                        let b0 = if b < i { b } else { b + 1 };
                        assert(after[a] == before[a0]);
                        assert(after[b] == before[b0]);
                    }
                }
                assert(self.member_set() =~= identity_set(before).remove(subject@)) by {
                    assert forall|k: Seq<u8>| #[trigger] self.member_set().contains(k) implies identity_set(before).remove(
                        subject@,
                    ).contains(k) by {
                        let j = choose|j: int| 0 <= j < after.len() && after[j]@ == k;
                        let j0 = if j < i { j } else { j + 1 };
                        assert(after[j] == before[j0]);
                        assert(j0 != i);
                        assert(identity_set(before).contains(k));
                    }
                    assert forall|k: Seq<u8>| #[trigger] identity_set(before).remove(subject@).contains(k) implies self.member_set().contains(
                        k,
                    ) by {
                        let j0 = choose|j: int| 0 <= j < before.len() && before[j]@ == k;
                        assert(j0 != i);
                        if j0 < i {
                            assert(after[j0]@ == k);
                        } else {
                            assert(after[j0 - 1]@ == k);
                        }
                    }
                }
                Ok(())
            },
        }
    }
}

/// The single shared access-control record of the vault variant: parallel
/// lists of identities and their balance snapshots.
pub struct Whitelist {
    pub address: Vec<Identity>,
    pub amount: Vec<u64>,
    pub bump: u8,
}

impl Whitelist {
    /// An empty shared record.
    pub fn initialize_whitelist(bump: u8) -> (r: Whitelist)
        ensures
            r.address@.len() == 0,
            r.amount@.len() == 0,
            r.bump == bump,
    {
        Whitelist { address: Vec::new(), amount: Vec::new(), bump }
    }

    /// The position of the first entry for `key`, by linear scan.
    pub fn get_index(&self, key: Identity) -> (r: Option<usize>)
        ensures
            r matches Some(i) ==> i < self.address@.len() && self.address@[i as int]@ == key@ && forall|j: int|
                0 <= j < i ==> self.address@[j]@ != key@,
            r is None ==> forall|j: int| 0 <= j < self.address@.len() ==> self.address@[j]@ != key@,
    {
        let mut i: usize = 0;
        while i < self.address.len()
            invariant
                0 <= i <= self.address@.len(),
                forall|j: int| 0 <= j < i ==> self.address@[j]@ != key@,
            decreases self.address@.len() - i,
        {
            if self.address[i].same(&key) {
                return Some(i);
            }
            i = i + 1;
        }
        None
    }
}

} // verus!
