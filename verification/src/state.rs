//! The ownership bookkeeping shared by every handle derived from one cell:
//! an exclusive-borrow flag, a count of outstanding shared leases, and a
//! generation counter that is bumped each time exclusive access is granted.

use vstd::prelude::*;

verus! {

/// Capability standing for the host's single serialization lock.
///
/// Every state-mutating operation of this crate demands one as proof that a
/// single logical thread is executing.  The crate never tests, acquires or
/// releases it; whoever drives the protocol decides when it is safe to make
/// one.
pub struct LockToken {}

/// A request for access conflicted with access that is still outstanding.
///
/// The two variants exist purely for diagnostic clarity; both report the same
/// kind of failure and both are recoverable by the caller.
#[derive(Debug, PartialEq, Eq)]
pub enum AlreadyBorrowed {
    /// An exclusive (mutable) borrow is outstanding.
    ExclusiveOutstanding,
    /// One or more shared leases are outstanding.
    SharedOutstanding,
}

/// Bookkeeping for one shared cell.
///
/// `mutably_borrowed` records whether an exclusive guard is live,
/// `leak_count` how many shared leases are outstanding, and `generation` how
/// often exclusive access has been granted so far (wrapping around once the
/// counter is exhausted).
#[derive(Debug)]
pub struct PySharedState {
    pub mutably_borrowed: bool,
    pub leak_count: u64,
    pub generation: u64,
}

/// The generation counter after one more exclusive grant.
pub open spec fn next_generation(g: u64) -> u64 {
    if g == u64::MAX {
        0
    } else {
        (g + 1) as u64
    }
}

/// The bookkeeping of a freshly created cell: nothing borrowed, nothing
/// leaked, generation zero.
pub open spec fn initial_state() -> PySharedState {
    PySharedState { mutably_borrowed: false, leak_count: 0, generation: 0 }
}

/// The state after exclusive access has been granted.
pub open spec fn grant_exclusive(s: PySharedState) -> PySharedState {
    PySharedState {
        mutably_borrowed: true,
        generation: next_generation(s.generation),
        ..s
    }
}

/// The state after a shared lease has been granted.
pub open spec fn grant_shared(s: PySharedState) -> PySharedState {
    PySharedState { leak_count: (s.leak_count + 1) as u64, ..s }
}

/// The state after the exclusive guard has been released.
pub open spec fn clear_exclusive(s: PySharedState) -> PySharedState {
    PySharedState { mutably_borrowed: false, ..s }
}

/// The state after one shared lease has been released.
pub open spec fn drop_lease(s: PySharedState) -> PySharedState {
    PySharedState { leak_count: (s.leak_count - 1) as u64, ..s }
}

/// A lease stamped with generation `stamp` is still valid against `s`: no
/// exclusive access has bumped the generation since the lease was taken, and
/// none is outstanding now.
pub open spec fn lease_valid(stamp: u64, s: PySharedState) -> bool {
    s.generation == stamp && !s.mutably_borrowed
}

impl PySharedState {
    /// The core safety invariant: exclusive and shared access never coexist.
    pub open spec fn safe(self) -> bool {
        !(self.mutably_borrowed && self.leak_count > 0)
    }

    /// An exclusive request would be granted against this state.
    pub open spec fn can_grant_exclusive(self) -> bool {
        !self.mutably_borrowed && self.leak_count == 0
    }

    /// A shared request would be granted against this state.
    pub open spec fn can_grant_shared(self) -> bool {
        !self.mutably_borrowed
    }

    /// Fresh bookkeeping for a new cell.
    pub fn new() -> (s: Self)
        ensures
            s == initial_state(),
    {
        PySharedState { mutably_borrowed: false, leak_count: 0, generation: 0 }
    }

    /// Ask for exclusive access.  Fails while an exclusive guard or any
    /// shared lease is outstanding; otherwise records the exclusive borrow
    /// and bumps the generation by exactly one (wrapping).
    pub fn request_exclusive(&mut self, _tok: &LockToken) -> (r: Result<(), AlreadyBorrowed>)
        ensures
            r is Ok <==> old(self).can_grant_exclusive(),
            r is Ok ==> *final(self) == grant_exclusive(*old(self)),
            r is Err ==> *final(self) == *old(self),
            old(self).mutably_borrowed ==> r == Err::<(), AlreadyBorrowed>(
                AlreadyBorrowed::ExclusiveOutstanding,
            ),
            !old(self).mutably_borrowed && old(self).leak_count > 0 ==> r == Err::<
                (),
                AlreadyBorrowed,
            >(AlreadyBorrowed::SharedOutstanding),
    {
        if self.mutably_borrowed {
            return Err(AlreadyBorrowed::ExclusiveOutstanding);
        }
        if self.leak_count > 0 {
            return Err(AlreadyBorrowed::SharedOutstanding);
        }
        self.mutably_borrowed = true;
        self.generation = if self.generation == u64::MAX {
            0
        } else {
            self.generation + 1
        };
        Ok(())
    }

    /// Ask for a shared lease.  Fails while an exclusive guard is
    /// outstanding; otherwise counts one more lease.  Any number of shared
    /// leases may coexist, up to the count's range.
    pub fn request_shared(&mut self, _tok: &LockToken) -> (r: Result<(), AlreadyBorrowed>)
        requires
            old(self).leak_count < u64::MAX,
        ensures
            r is Ok <==> old(self).can_grant_shared(),
            r is Ok ==> *final(self) == grant_shared(*old(self)),
            r is Err ==> *final(self) == *old(self) && r == Err::<(), AlreadyBorrowed>(
                AlreadyBorrowed::ExclusiveOutstanding,
            ),
    {
        if self.mutably_borrowed {
            return Err(AlreadyBorrowed::ExclusiveOutstanding);
        }
        self.leak_count = self.leak_count + 1;
        Ok(())
    }

    /// Release exclusive access.  The caller must actually hold it, with no
    /// shared leases outstanding; a violation would be a programming error in
    /// the guard that calls this, not a recoverable condition.  Leaves the
    /// lease count and the generation unchanged.
    pub fn release_exclusive(&mut self, _tok: &LockToken)
        requires
            old(self).mutably_borrowed,
            old(self).leak_count == 0,
        ensures
            *final(self) == clear_exclusive(*old(self)),
    {
        self.mutably_borrowed = false;
    }

    /// Release one shared lease.  The caller must hold one, so the count is
    /// positive.  Leaves the borrow flag and the generation unchanged.
    pub fn release_shared(&mut self, _tok: &LockToken)
        requires
            old(self).leak_count > 0,
        ensures
            *final(self) == drop_lease(*old(self)),
    {
        self.leak_count = self.leak_count - 1;
    }

    /// The current generation counter.
    pub fn current_generation(&self, _tok: &LockToken) -> (g: u64)
        ensures
            g == self.generation,
    {
        self.generation
    }
}

} // verus!
