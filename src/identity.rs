use anchor_lang::prelude::Pubkey;
use vstd::prelude::*;

verus! {

/// A 32-byte account identity on the ledger (a wallet, a program, or a
/// derived address).
#[derive(Clone, Copy, Debug, PartialEq, Eq)]
pub struct Identity {
    pub bytes: [u8; 32],
}

impl View for Identity {
    type V = Seq<u8>;

    open spec fn view(&self) -> Seq<u8> {
        self.bytes@
    }
}

/// The address and bump that program-address derivation yields for the given
/// seeds under the given program, or `None` where no viable bump exists or the
/// seeds exceed the derivation limits.
pub uninterp spec fn program_address(seeds: Seq<Seq<u8>>, program: Seq<u8>) -> Option<(Seq<u8>, u8)>;

/// The byte contents of each seed.
pub open spec fn seeds_view(seeds: Seq<Vec<u8>>) -> Seq<Seq<u8>> {
    seeds.map_values(|s: Vec<u8>| s@)
}

impl Identity {
    pub fn new(bytes: [u8; 32]) -> (r: Identity)
        ensures
            r.bytes == bytes,
    {
        Identity { bytes }
    }

    /// Byte-wise comparison of two identities.
    pub fn same(&self, other: &Identity) -> (r: bool)
        ensures
            r == (self@ == other@),
    {
        let mut i: usize = 0;
        while i < 32
            invariant
                0 <= i <= 32,
                self@.len() == 32,
                other@.len() == 32,
                forall|j: int| 0 <= j < i ==> self@[j] == other@[j],
            decreases 32 - i,
        {
            if self.bytes[i] != other.bytes[i] {
                return false;
            }
            i = i + 1;
        }
        assert(self@ =~= other@);
        true
    }

    /// The seed bytes of this identity.
    pub fn seed(&self) -> (r: Vec<u8>)
        ensures
            r@ == self@,
    {
        let mut out: Vec<u8> = Vec::new();
        let mut i: usize = 0;
        while i < 32
            invariant
                0 <= i <= 32,
                self@.len() == 32,
                out@ =~= self@.subrange(0, i as int),
            decreases 32 - i,
        {
            out.push(self.bytes[i]);
            i = i + 1;
        }
        out
    }
}

/// Relies on `Pubkey::try_find_program_address`: the deterministic search for a
/// program-derived address and its bump over the given seeds and program id.
#[verifier::external_body]
pub(crate) fn find_program_address(seeds: &Vec<Vec<u8>>, program: &Identity) -> (r: Option<(Identity, u8)>)
    ensures
        r matches Some(found) ==> program_address(seeds_view(seeds@), program@) == Some((found.0@, found.1)),
        r is None ==> program_address(seeds_view(seeds@), program@) is None,
{
    let refs: Vec<&[u8]> = seeds.iter().map(|s| s.as_slice()).collect();
    Pubkey::try_find_program_address(&refs, &Pubkey::new_from_array(program.bytes))
        .map(|(key, bump)| (Identity { bytes: key.to_bytes() }, bump))
}

/// Derives the address of a record under `program` from a namespace tag and an
/// optional subject identity.
pub fn derive_address(namespace: &Vec<u8>, subject: Option<&Identity>, program: &Identity) -> (r: Option<(Identity, u8)>)
    ensures
        r matches Some(found) ==> program_address(record_seeds(namespace@, subject_view(subject)), program@)
            == Some((found.0@, found.1)),
        r is None ==> program_address(record_seeds(namespace@, subject_view(subject)), program@) is None,
{
    let mut seeds: Vec<Vec<u8>> = Vec::new();
    seeds.push(namespace.clone());
    match subject {
        Some(s) => seeds.push(s.seed()),
        None => {},
    }
    assert(seeds_view(seeds@) =~= record_seeds(namespace@, subject_view(subject)));
    find_program_address(&seeds, program)
}

/// The bytes of an optional subject.
pub open spec fn subject_view(subject: Option<&Identity>) -> Option<Seq<u8>> {
    match subject {
        Some(s) => Some(s@),
        None => None,
    }
}

/// The seeds of a record: the namespace tag, then the subject if there is one.
pub open spec fn record_seeds(namespace: Seq<u8>, subject: Option<Seq<u8>>) -> Seq<Seq<u8>> {
    match subject {
        Some(s) => seq![namespace, s],
        None => seq![namespace],
    }
}

} // verus!
