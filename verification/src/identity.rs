//! Allocation of connection identities.
//!
//! An identity is an unsigned integer that names one connection. Identities
//! are handed out in ascending order starting from 1, so a connection never
//! shares its identity with one that was admitted before it.

use vstd::prelude::*;

verus! {

/// The identity handed out after `id`. The counter wraps: the successor of
/// the largest `usize` is 0.
pub open spec fn successor(id: usize) -> usize {
    if id == usize::MAX {
        0
    } else {
        (id + 1) as usize
    }
}

/// The identities that `n` consecutive allocations return when the first of
/// them returns `start`.
pub open spec fn issued(start: usize, n: nat) -> Seq<usize>
    decreases n,
{
    if n == 0 {
        Seq::empty()
    } else {
        seq![start] + issued(successor(start), (n - 1) as nat)
    }
}

/// Hands out connection identities, counting upwards from 1.
pub struct IdAllocator {
    next: usize,
}

impl IdAllocator {
    /// The identity that the next allocation returns.
    pub closed spec fn upcoming(&self) -> usize {
        self.next
    }

    /// A fresh allocator. The first identity it issues is 1; 0 is never the
    /// first.
    pub fn new() -> (alloc: IdAllocator)
        ensures
            alloc.upcoming() == 1,
    {
        IdAllocator { next: 1 }
    }

    /// Issues the upcoming identity and advances the counter by one.
    pub fn next(&mut self) -> (id: usize)
        ensures
            id == old(self).upcoming(),
            final(self).upcoming() == successor(old(self).upcoming()),
    {
        let id: usize = self.next;
        if id == usize::MAX {
            self.next = 0;
        } else {
            self.next = id + 1;
        }
        id
    }
}

/// As long as the counter does not wrap, the `i`-th identity issued is
/// `start + i`.
pub proof fn issued_counts_up(start: usize, n: nat, i: int)
    requires
        start + n <= usize::MAX + 1,
        0 <= i < n,
    ensures
        issued(start, n).len() == n,
        issued(start, n)[i] == start + i,
    decreases n,
{
    issued_len(start, n);
    if i > 0 {
        issued_len(successor(start), (n - 1) as nat);
        issued_counts_up(successor(start), (n - 1) as nat, i - 1);
    }
}

/// `n` allocations issue `n` identities.
pub proof fn issued_len(start: usize, n: nat)
    ensures
        issued(start, n).len() == n,
    decreases n,
{
    if n > 0 {
        issued_len(successor(start), (n - 1) as nat);
    }
}

/// Uniqueness: the identities issued by any run of `n` allocations that does
/// not pass the largest `usize` are strictly increasing, hence pairwise
/// distinct.
pub proof fn issued_ids_strictly_increase(start: usize, n: nat)
    requires
        start + n <= usize::MAX + 1,
    ensures
        issued(start, n).len() == n,
        forall|i: int, j: int|
            0 <= i < j < n ==> (#[trigger] issued(start, n)[i]) < (#[trigger] issued(start, n)[j]),
        forall|i: int, j: int|
            0 <= i < n && 0 <= j < n && i != j ==> (#[trigger] issued(start, n)[i]) != (
            #[trigger] issued(start, n)[j]),
{
    issued_len(start, n);
    assert forall|i: int, j: int| 0 <= i < j < n implies (#[trigger] issued(start, n)[i]) < (
    #[trigger] issued(start, n)[j]) by {
        issued_counts_up(start, n, i);
        issued_counts_up(start, n, j);
    }
    assert forall|i: int, j: int| 0 <= i < n && 0 <= j < n && i != j implies (#[trigger] issued(
        start,
        n,
    )[i]) != (#[trigger] issued(start, n)[j]) by {
        issued_counts_up(start, n, i);
        issued_counts_up(start, n, j);
    }
}

} // verus!
