//! Monotonic id allocation.
//!
//! Lab workers pre-assign row ids from a lease, which is what makes it
//! possible to build child rows before their parent rows have been committed.

use vstd::prelude::*;

verus! {

/// A block of ids owned exclusively by one worker.
///
/// Deliberately not `Copy`: a lease that could be implicitly duplicated could
/// issue the same id twice.
#[derive(Debug, PartialEq, Eq)]
pub struct IdLease {
    next: i64,
    end: i64,
}

impl IdLease {
    #[verifier::type_invariant]
    spec fn well_formed(self) -> bool {
        self.next <= self.end
    }

    /// The next id this lease will hand out.
    pub closed spec fn spec_next(&self) -> i64 {
        self.next
    }

    /// One past the last id of the lease.
    pub closed spec fn spec_end(&self) -> i64 {
        self.end
    }

    /// The ids this lease has yet to hand out.
    pub open spec fn unissued(&self) -> Set<int> {
        Set::new(|id: int| self.spec_next() <= id < self.spec_end())
    }

    /// Hand out the next id of the block, or `None` once it is exhausted.
    pub fn take(&mut self) -> (id: Option<i64>)
        ensures
            old(self).spec_next() >= old(self).spec_end() ==> id is None && *final(self) == *old(
                self,
            ),
            old(self).spec_next() < old(self).spec_end() ==> id == Some(old(self).spec_next())
                && final(self).spec_next() == old(self).spec_next() + 1 && final(self).spec_end()
                == old(self).spec_end(),
            final(self).spec_next() <= final(self).spec_end(),
    {
        proof {
            use_type_invariant(&*self);
        }
        if self.next >= self.end {
            return None;
        }
        let id = self.next;
        self.next = self.next + 1;
        Some(id)
    }

    pub fn remaining(&self) -> (remaining: i64)
        requires
            self.spec_end() - self.spec_next() <= i64::MAX,
        ensures
            remaining == self.spec_end() - self.spec_next(),
            remaining >= 0,
    {
        proof {
            use_type_invariant(self);
        }
        self.end - self.next
    }
}

/// Hands out disjoint leases. Seeded from `MAX(id) + 1` at startup, so that a
/// restart never reissues a used id. Leasing takes the allocator mutably:
/// workers that share one take their leases under a lock.
pub struct IdAllocator {
    next: i64,
}

impl Clone for IdLease {
    fn clone(&self) -> (copy: IdLease)
        ensures
            copy == *self,
    {
        proof {
            use_type_invariant(self);
        }
        IdLease { next: self.next, end: self.end }
    }
}

impl IdAllocator {
    /// The first id of the next lease.
    pub closed spec fn spec_next(&self) -> i64 {
        self.next
    }

    /// `next` is `MAX(id) + 1` for the table this allocator serves.
    pub fn resume_from(next: i64) -> (allocator: IdAllocator)
        ensures
            allocator.spec_next() == next,
    {
        IdAllocator { next }
    }

    /// Lease the next `count` ids. A lease of zero ids is a defect at the
    /// call site, and a lease past `i64::MAX` cannot be represented.
    pub fn lease(&mut self, count: i64) -> (lease: IdLease)
        requires
            count > 0,
            old(self).spec_next() + count <= i64::MAX,
        ensures
            lease.spec_next() == old(self).spec_next(),
            lease.spec_end() == old(self).spec_next() + count,
            final(self).spec_next() == old(self).spec_next() + count,
    {
        let start = self.next;
        self.next = start + count;
        IdLease { next: start, end: start + count }
    }

    pub fn peek(&self) -> (next: i64)
        ensures
            next == self.spec_next(),
    {
        self.next
    }
}

/// Leases never overlap: every id of a lease lies below the allocator's next
/// id, so any later lease (which starts there) is disjoint from it, and a
/// restart from the high-water mark never reissues one.
pub proof fn law_leases_are_disjoint(first: IdLease, after: IdAllocator, second: IdLease)
    requires
        first.spec_end() <= after.spec_next(),
        second.spec_next() >= after.spec_next(),
    ensures
        first.unissued().disjoint(second.unissued()),
{
}

} // verus!
