//! The list of attestation numbers that a subject has, kept in a vector of the ledger host.

use vstd::prelude::*;

verus! {

/// The handle on the ledger host from which host vectors are made.
#[verifier::external_type_specification]
#[verifier::external_body]
pub struct ExHostEnv(soroban_sdk::Env);

/// The host's vector type.
#[verifier::external_type_specification]
#[verifier::external_body]
#[verifier::reject_recursive_types(T)]
pub struct ExHostVec<T>(soroban_sdk::Vec<T>);

/// The numbers that a host vector holds, front to back.
pub uninterp spec fn host_ids(v: soroban_sdk::Vec<u64>) -> Seq<u64>;

/// The attestation numbers of one subject, oldest first.
///
/// The host vector can only be reached through the functions below, and those put nothing into
/// it but numbers: reading an item back as a number never fails.
pub struct SubjectIndex {
    ids: soroban_sdk::Vec<u64>,
}

impl View for SubjectIndex {
    type V = Seq<u64>;

    closed spec fn view(&self) -> Seq<u64> {
        host_ids(self.ids)
    }
}

/// The calls into the host vector.
impl SubjectIndex {
    /// Calls `soroban_sdk::Vec::new`. Claimed of it: the new vector holds nothing.
    #[verifier::external_body]
    fn host_new(host: &soroban_sdk::Env) -> (index: Self)
        ensures
            host_ids(index.ids) == Seq::<u64>::empty(),
    {
        SubjectIndex { ids: soroban_sdk::Vec::new(host) }
    }

    /// Calls `soroban_sdk::Vec::len`. Claimed of it: it returns the number of items.
    #[verifier::external_body]
    fn host_len(&self) -> (n: u32)
        ensures
            n == host_ids(self.ids).len(),
    {
        self.ids.len()
    }

    /// Calls `soroban_sdk::Vec::get_unchecked`, which panics past the end. Claimed of it: it
    /// returns the item at the position.
    #[verifier::external_body]
    fn host_get_unchecked(&self, i: u32) -> (id: u64)
        requires
            i < host_ids(self.ids).len(),
        ensures
            id == host_ids(self.ids)[i as int],
    {
        self.ids.get_unchecked(i)
    }

    /// Calls `soroban_sdk::Vec::push_back`, which the host refuses on a vector that is as long
    /// as a `u32` can say. Claimed of it: the item is added at the end.
    #[verifier::external_body]
    fn host_push_back(&mut self, id: u64)
        requires
            host_ids(old(self).ids).len() < u32::MAX,
        ensures
            host_ids(final(self).ids) == host_ids(old(self).ids).push(id),
    {
        self.ids.push_back(id)
    }

    /// Calls `soroban_sdk::Vec::remove_unchecked`, which panics past the end. Claimed of it: the
    /// item at the position leaves and those behind it move up by one.
    #[verifier::external_body]
    fn host_remove_unchecked(&mut self, i: u32)
        requires
            i < host_ids(old(self).ids).len(),
        ensures
            host_ids(final(self).ids) == host_ids(old(self).ids).remove(i as int),
    {
        self.ids.remove_unchecked(i)
    }

    /// Calls `<soroban_sdk::Vec as Clone>::clone`. Claimed of it: the copy is a second handle on
    /// the same items, which the host never changes in place.
    #[verifier::external_body]
    fn host_clone(&self) -> (copy: Self)
        ensures
            host_ids(copy.ids) == host_ids(self.ids),
    {
        SubjectIndex { ids: self.ids.clone() }
    }
}

impl SubjectIndex {
    /// A list of no attestations.
    pub fn new(host: &soroban_sdk::Env) -> (index: Self)
        ensures
            index@ == Seq::<u64>::empty(),
    {
        Self::host_new(host)
    }

    /// A list of the given attestations.
    pub fn from_ids(host: &soroban_sdk::Env, ids: &Vec<u64>) -> (index: Self)
        requires
            ids@.len() <= u32::MAX,
        ensures
            index@ == ids@,
    {
        let mut index = Self::host_new(host);
        let mut i: usize = 0;
        while i < ids.len()
            invariant
                i <= ids.len(),
                ids@.len() <= u32::MAX,
                index@ =~= ids@.take(i as int),
            decreases ids.len() - i,
        {
            index.host_push_back(ids[i]);
            i = i + 1;
        }
        assert(ids@.take(i as int) =~= ids@);
        index
    }

    /// The number of attestations in the list.
    pub fn len(&self) -> (n: u32)
        ensures
            n == self@.len(),
    {
        self.host_len()
    }

    /// The attestation numbers, oldest first.
    pub fn to_vec(&self) -> (ids: Vec<u64>)
        ensures
            ids@ == self@,
    {
        let n: u32 = self.host_len();
        let mut ids: Vec<u64> = Vec::new();
        let mut i: u32 = 0;
        while i < n
            invariant
                i <= n,
                n == self@.len(),
                ids@ =~= self@.take(i as int),
            decreases n - i,
        {
            ids.push(self.host_get_unchecked(i));
            i = i + 1;
        }
        assert(self@.take(n as int) =~= self@);
        ids
    }

    /// Adds an attestation number at the end.
    pub fn push(&mut self, id: u64)
        requires
            old(self)@.len() < u32::MAX,
        ensures
            final(self)@ == old(self)@.push(id),
    {
        self.host_push_back(id);
    }

    /// Takes an attestation number out where it occurs first, and says whether it occurred.
    pub fn remove_id(&mut self, id: u64) -> (removed: bool)
        ensures
            removed == old(self)@.contains(id),
            final(self)@ == old(self)@.remove_value(id),
    {
        proof {
            self@.index_of_first_ensures(id);
        }
        let n: u32 = self.host_len();
        let mut i: u32 = 0;
        while i < n
            invariant
                i <= n,
                n == self@.len(),
                self@ == old(self)@,
                forall|j: int| 0 <= j < i ==> self@[j] != id,
            decreases n - i,
        {
            if self.host_get_unchecked(i) == id {
                proof {
                    assert(self@.contains(id));
                    self@.index_of_first_ensures(id);
                    assert(self@.index_of_first(id) == Some(i as int));
                }
                self.host_remove_unchecked(i);
                return true;
            }
            i = i + 1;
        }
        false
    }
}

impl Clone for SubjectIndex {
    fn clone(&self) -> (copy: Self)
        ensures
            copy@ == self@,
    {
        self.host_clone()
    }
}

} // verus!
