//! The sockets of the clients of an environment.

use std::collections::HashSet;
use vstd::prelude::*;
use vstd::set_lib::{lemma_len_subset, FiniteRange};
use vstd::std_specs::iter::IteratorSpec;

verus! {

broadcast use vstd::std_specs::hash::group_hash_axioms;

/// A set of open sockets, each by its descriptor.
pub struct SocketSet {
    sockets: HashSet<i32>,
}

impl View for SocketSet {
    type V = Set<i32>;

    closed spec fn view(&self) -> Set<i32> {
        self.sockets@
    }
}

/// Whether all members can be descriptors of open files.
pub open spec fn all_open(sockets: Set<i32>) -> bool {
    forall|fd: i32| #[trigger] sockets.contains(fd) ==> fd >= 0
}

/// There is always room for one more.
pub(crate) proof fn lemma_len(sockets: Set<i32>)
    requires
        all_open(sockets),
    ensures
        sockets.finite(),
        sockets.len() <= i32::MAX + 1,
{
    i32::range_properties(0, i32::MAX);
    let all = i32::range_set(0, i32::MAX).insert(i32::MAX);
    assert(sockets.subset_of(all)) by {
        assert forall|fd: i32| sockets.contains(fd) implies all.contains(fd) by {}
    }
    lemma_len_subset(sockets, all);
}

impl SocketSet {
    pub fn new() -> (r: SocketSet)
        ensures
            r@ == Set::<i32>::empty(),
    {
        SocketSet { sockets: HashSet::new() }
    }

    /// How many sockets there are. One more can always be counted.
    pub fn len(&self) -> (r: usize)
        requires
            all_open(self@),
        ensures
            r == self@.len(),
            r < usize::MAX,
    {
        proof {
            lemma_len(self@);
        }
        self.sockets.len()
    }

    /// Adds a socket. Says whether it is a new one.
    pub fn insert(&mut self, socket: i32) -> (r: bool)
        ensures
            final(self)@ == old(self)@.insert(socket),
            r == !old(self)@.contains(socket),
    {
        self.sockets.insert(socket)
    }

    /// Removes a socket, which the caller then has to close. Says whether it was there.
    pub fn remove(&mut self, socket: &i32) -> (r: bool)
        ensures
            final(self)@ == old(self)@.remove(*socket),
            r == old(self)@.contains(*socket),
    {
        self.sockets.remove(socket)
    }

    pub fn is_empty(&self) -> (r: bool)
        ensures
            r == self@.is_empty(),
    {
        self.sockets.is_empty()
    }

    /// All sockets, each once, for the caller to close.
    pub fn into_sockets(self) -> (r: Vec<i32>)
        ensures
            r@.to_set() == self@,
            r@.no_duplicates(),
    {
        let mut r: Vec<i32> = Vec::new();
        let ghost all = vstd::std_specs::hash::spec_hash_keys_iter(&self.sockets).remaining();
        for socket in iter: self.sockets.iter()
            invariant
                iter.seq() == all,
                r@ == iter.seq().unref().take(iter.index() as int),
        {
            r.push(*socket);
        }
        assert(r@ == all.unref());
        r
    }
}

} // verus!
