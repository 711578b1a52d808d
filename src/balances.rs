use vstd::prelude::*;

use crate::identity::Identity;

verus! {

/// An amount held by one owner.
#[derive(Clone, Copy, Debug, PartialEq, Eq)]
pub struct Entry {
    pub owner: Identity,
    pub amount: u64,
}

/// Amounts keyed by owner, at most one entry per owner. An owner without an
/// entry holds zero.
pub struct Balances {
    entries: Vec<Entry>,
}

pub open spec fn distinct_owners(s: Seq<Entry>) -> bool {
    forall|i: int, j: int| 0 <= i < s.len() && 0 <= j < s.len() && i != j ==> s[i].owner@ != s[j].owner@
}

/// Whether some entry of `s` belongs to `k`.
pub open spec fn has_entry(s: Seq<Entry>, k: Seq<u8>) -> bool {
    exists|i: int| 0 <= i < s.len() && s[i].owner@ == k
}

/// The amount that `s` records for `k`: the last entry's, or zero.
pub open spec fn amount_in(s: Seq<Entry>, k: Seq<u8>) -> nat
    decreases s.len(),
{
    if s.len() == 0 {
        0
    } else if s.last().owner@ == k {
        s.last().amount as nat
    } else {
        amount_in(s.drop_last(), k)
    }
}

/// The sum of all amounts in `s`.
pub open spec fn total_of(s: Seq<Entry>) -> nat
    decreases s.len(),
{
    if s.len() == 0 {
        0
    } else {
        total_of(s.drop_last()) + s.last().amount as nat
    }
}

proof fn lemma_amount_absent(s: Seq<Entry>, k: Seq<u8>)
    requires
        !has_entry(s, k),
    ensures
        amount_in(s, k) == 0,
    decreases s.len(),
{
    if s.len() > 0 {
        assert(s.last() == s[s.len() - 1]);
        assert(!has_entry(s.drop_last(), k)) by {
            if has_entry(s.drop_last(), k) {
                let i = choose|i: int| 0 <= i < s.drop_last().len() && s.drop_last()[i].owner@ == k;
                assert(s[i].owner@ == k);
            }
        }
        lemma_amount_absent(s.drop_last(), k);
    }
}

proof fn lemma_amount_at(s: Seq<Entry>, i: int)
    requires
        distinct_owners(s),
        0 <= i < s.len(),
    ensures
        amount_in(s, s[i].owner@) == s[i].amount,
    decreases s.len(),
{
    if i < s.len() - 1 {
        assert(s.last().owner@ != s[i].owner@);
        assert(s.drop_last()[i] == s[i]);
        lemma_amount_at(s.drop_last(), i);
    }
}

/// Replacing entry `i` changes the amount of its owner alone, and the total by
/// the difference.
proof fn lemma_update(s: Seq<Entry>, i: int, e: Entry)
    requires
        distinct_owners(s),
        0 <= i < s.len(),
        e.owner@ == s[i].owner@,
    ensures
        total_of(s.update(i, e)) + s[i].amount == total_of(s) + e.amount,
        forall|k: Seq<u8>| k != e.owner@ ==> amount_in(s.update(i, e), k) == amount_in(s, k),
    decreases s.len(),
{
    let t = s.update(i, e);
    if i == s.len() - 1 {
        assert(t.drop_last() =~= s.drop_last());
        assert forall|k: Seq<u8>| k != e.owner@ implies amount_in(t, k) == amount_in(s, k) by {
            assert(t.last().owner@ == e.owner@);
            assert(s.last().owner@ == e.owner@);
        }
    } else {
        assert(t.drop_last() =~= s.drop_last().update(i, e));
        assert(s.drop_last()[i] == s[i]);
        assert(distinct_owners(s.drop_last()));
        lemma_update(s.drop_last(), i, e);
        assert(t.last() == s.last());
        assert forall|k: Seq<u8>| k != e.owner@ implies amount_in(t, k) == amount_in(s, k) by {
            assert(amount_in(s.drop_last().update(i, e), k) == amount_in(s.drop_last(), k));
        }
    }
}

/// Appending an entry for a new owner adds its amount to the total and to
/// that owner alone.
proof fn lemma_push(s: Seq<Entry>, e: Entry)
    ensures
        total_of(s.push(e)) == total_of(s) + e.amount,
        amount_in(s.push(e), e.owner@) == e.amount,
        forall|k: Seq<u8>| k != e.owner@ ==> amount_in(s.push(e), k) == amount_in(s, k),
{
    assert(s.push(e).drop_last() =~= s);
}

impl Balances {
    pub closed spec fn wf(&self) -> bool {
        distinct_owners(self.entries@)
    }

    /// The amount recorded for `k`, zero when there is no entry.
    pub closed spec fn amount_of(&self, k: Seq<u8>) -> nat {
        amount_in(self.entries@, k)
    }

    /// Whether `k` has an entry.
    pub closed spec fn contains(&self, k: Seq<u8>) -> bool {
        has_entry(self.entries@, k)
    }

    /// The sum of all recorded amounts.
    pub closed spec fn total(&self) -> nat {
        total_of(self.entries@)
    }

    pub closed spec fn is_empty_spec(&self) -> bool {
        self.entries@.len() == 0
    }

    /// No entries.
    pub fn new() -> (r: Balances)
        ensures
            r.wf(),
            r.total() == 0,
            r.is_empty_spec(),
            forall|k: Seq<u8>| !r.contains(k) && r.amount_of(k) == 0,
    {
        Balances { entries: Vec::new() }
    }

    pub proof fn lemma_empty(&self)
        requires
            self.is_empty_spec(),
        ensures
            self.total() == 0,
            forall|k: Seq<u8>| !self.contains(k) && self.amount_of(k) == 0,
    {
    }

    fn position(&self, k: &Identity) -> (r: Option<usize>)
        requires
            self.wf(),
        ensures
            r matches Some(i) ==> i < self.entries@.len() && self.entries@[i as int].owner@ == k@,
            r is None ==> !self.contains(k@),
    {
        let mut i: usize = 0;
        while i < self.entries.len()
            invariant
                0 <= i <= self.entries@.len(),
                forall|j: int| 0 <= j < i ==> self.entries@[j].owner@ != k@,
            decreases self.entries@.len() - i,
        {
            if self.entries[i].owner.same(k) {
                return Some(i);
            }
            i = i + 1;
        }
        None
    }

    /// The amount recorded for `k`.
    pub fn get(&self, k: &Identity) -> (r: u64)
        requires
            self.wf(),
        ensures
            r == self.amount_of(k@),
    {
        match self.position(k) {
            Some(i) => {
                proof {
                    lemma_amount_at(self.entries@, i as int);
                }
                self.entries[i].amount
            },
            None => {
                proof {
                    lemma_amount_absent(self.entries@, k@);
                }
                0
            },
        }
    }

    /// Whether `k` has an entry.
    pub fn has(&self, k: &Identity) -> (r: bool)
        requires
            self.wf(),
        ensures
            r == self.contains(k@),
    {
        self.position(k).is_some()
    }

    /// Records `v` for `k`, creating the entry if needed.
    pub fn set(&mut self, k: &Identity, v: u64)
        requires
            old(self).wf(),
        ensures
            final(self).wf(),
            final(self).amount_of(k@) == v,
            final(self).contains(k@),
            final(self).total() + old(self).amount_of(k@) == old(self).total() + v,
            forall|o: Seq<u8>| o != k@ ==> final(self).amount_of(o) == old(self).amount_of(o),
            forall|o: Seq<u8>| o != k@ ==> final(self).contains(o) == old(self).contains(o),
    {
        let e = Entry { owner: *k, amount: v };
        let ghost s = self.entries@;
        match self.position(k) {
            Some(i) => {
                proof {
                    lemma_amount_at(s, i as int);
                    lemma_update(s, i as int, e);
                }
                self.entries.set(i, e);
                assert(self.entries@ =~= s.update(i as int, e));
                proof {
                    lemma_amount_at(self.entries@, i as int);
                }
                assert forall|o: Seq<u8>| o != k@ implies #[trigger] has_entry(self.entries@, o) == has_entry(s, o) by {
                    if has_entry(s, o) {
                        let j = choose|j: int| 0 <= j < s.len() && s[j].owner@ == o;
                        assert(self.entries@[j].owner@ == o);
                    }
                    if has_entry(self.entries@, o) {
                        let j = choose|j: int| 0 <= j < s.len() && self.entries@[j].owner@ == o;
                        assert(s[j].owner@ == o);
                    }
                }
                assert(has_entry(self.entries@, k@)) by {
                    assert(self.entries@[i as int].owner@ == k@);
                }
            },
            None => {
                proof {
                    lemma_amount_absent(s, k@);
                    lemma_push(s, e);
                }
                self.entries.push(e);
                assert(self.entries@ =~= s.push(e));
                assert(distinct_owners(self.entries@)) by {
                    assert forall|a: int, b: int|
                        0 <= a < self.entries@.len() && 0 <= b < self.entries@.len() && a != b implies #[trigger] self.entries@[a].owner@
                        != #[trigger] self.entries@[b].owner@ by {
                        if a == s.len() {
                            assert(self.entries@[b] == s[b]);
                        } else if b == s.len() {
                            assert(self.entries@[a] == s[a]);
                        }
                    }
                }
                assert forall|o: Seq<u8>| o != k@ implies #[trigger] has_entry(self.entries@, o) == has_entry(s, o) by {
                    if has_entry(s, o) {
                        let j = choose|j: int| 0 <= j < s.len() && s[j].owner@ == o;
                        assert(self.entries@[j].owner@ == o);
                    }
                    if has_entry(self.entries@, o) {
                        let j = choose|j: int| 0 <= j < self.entries@.len() && self.entries@[j].owner@ == o;
                        assert(j < s.len());
                        assert(s[j].owner@ == o);
                    }
                }
                assert(has_entry(self.entries@, k@)) by {
                    assert(self.entries@[s.len() as int].owner@ == k@);
                }
            },
        }
    }
}

} // verus!
