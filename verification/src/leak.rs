//! Shared leases: handles that a consumer may retain indefinitely, validated
//! against the owning cell's generation on every access.

use vstd::prelude::*;

use crate::cell::PySharedRefCell;
use crate::state::{drop_lease, grant_shared, lease_valid, AlreadyBorrowed, LockToken};

verus! {

/// A lease was used after a subsequent exclusive access: the generation
/// captured when the lease was taken no longer matches the cell's.  The
/// leased view is gone; the caller should not retry.
#[derive(Debug, PartialEq, Eq)]
pub struct Invalidated;

/// A shared lease on the value of a [`PySharedRefCell`].
///
/// The handle captures the cell's generation when it is created and owns one
/// claim on the cell's lease count until [`PyLeaked::release`] gives the
/// claim back, or [`PyLeaked::map`] moves it into a transformed handle.
/// Every access re-validates the captured generation, so the handle may
/// outlive any number of intervening operations on the cell.
///
/// `P` is the handle's payload: `()` for a fresh lease, whose payload is the
/// cell's value itself, or a cursor produced by [`PyLeaked::map`].  The
/// payload slot is empty only while a [`PyLeakedRefMut`] guard holds the
/// payload.
#[derive(Debug)]
pub struct PyLeaked<P> {
    pub(crate) payload: Option<P>,
    pub(crate) generation: u64,
    pub(crate) claim: bool,
}

/// Immutably borrowed view of a leased value, produced only after the
/// lease's generation was validated.  It exists for the duration of one
/// access; the next access validates again.
pub struct PyLeakedRef<'a, T> {
    pub(crate) data: &'a T,
}

/// Mutably borrowed view of a lease's payload, produced only after the
/// lease's generation was validated.  It holds the payload — typically a
/// cursor whose position must advance — until it is given back with
/// [`PyLeaked::end_borrow_mut`].
pub struct PyLeakedRefMut<P> {
    pub(crate) data: P,
    pub(crate) stamp: u64,
}

impl<T> PySharedRefCell<T> {
    /// Take a shared lease on this cell's value.  Fails while an exclusive
    /// guard is outstanding; otherwise counts one more lease and returns a
    /// handle stamped with the current generation.
    pub fn leak_immutable(&mut self, tok: &LockToken) -> (r: Result<
        PyLeaked<()>,
        AlreadyBorrowed,
    >)
        requires
            old(self).wf(),
            old(self).sharing().leak_count < u64::MAX,
        ensures
            final(self).wf(),
            final(self).stored() == old(self).stored(),
            r is Ok <==> old(self).sharing().can_grant_shared(),
            r matches Ok(h) ==> {
                &&& final(self).sharing() == grant_shared(old(self).sharing())
                &&& h.stamp() == old(self).sharing().generation
                &&& h.live()
                &&& h.payload() == Some(())
            },
            r is Err ==> *final(self) == *old(self) && r == Err::<PyLeaked<()>, AlreadyBorrowed>(
                AlreadyBorrowed::ExclusiveOutstanding,
            ),
    {
        match self.state.request_shared(tok) {
            Err(e) => Err(e),
            Ok(()) => Ok(
                PyLeaked {
                    payload: Some(()),
                    generation: self.state.current_generation(tok),
                    claim: true,
                },
            ),
        }
    }
}

impl<P> PyLeaked<P> {
    /// The generation captured when this lease chain was created.
    pub open(crate) spec fn stamp(self) -> u64 {
        self.generation
    }

    /// Whether this handle still owns a claim on the cell's lease count.
    pub open(crate) spec fn live(self) -> bool {
        self.claim
    }

    /// The payload, empty only while a [`PyLeakedRefMut`] guard holds it.
    pub open(crate) spec fn payload(self) -> Option<P> {
        self.payload
    }

    /// Immutably borrow the leased value.  Succeeds exactly when the lease
    /// is still valid: no exclusive access has been granted since the lease
    /// was taken, and none is outstanding now.
    pub fn try_borrow<'a, T>(&self, cell: &'a PySharedRefCell<T>, _tok: &LockToken) -> (r: Result<
        PyLeakedRef<'a, T>,
        Invalidated,
    >)
        requires
            cell.wf(),
        ensures
            r is Ok <==> lease_valid(self.stamp(), cell.sharing()),
            r matches Ok(g) ==> Some(g.value()) == cell.stored(),
    {
        if self.generation != cell.state.generation {
            return Err(Invalidated);
        }
        match &cell.value {
            Some(v) => Ok(PyLeakedRef { data: v }),
            None => Err(Invalidated),
        }
    }

    /// Mutably borrow the payload, typically to advance a cursor.  Succeeds
    /// exactly when no exclusive access has been granted since the lease was
    /// taken; on success the payload moves into the returned guard until
    /// [`PyLeaked::end_borrow_mut`] gives it back.
    pub fn try_borrow_mut<T>(&mut self, cell: &PySharedRefCell<T>, _tok: &LockToken) -> (r: Result<
        PyLeakedRefMut<P>,
        Invalidated,
    >)
        requires
            old(self).payload() is Some,
        ensures
            r is Ok <==> old(self).stamp() == cell.sharing().generation,
            r matches Ok(g) ==> {
                &&& Some(g.value()) == old(self).payload()
                &&& g.stamp() == old(self).stamp()
                &&& final(self).payload() is None
                &&& final(self).stamp() == old(self).stamp()
                &&& final(self).live() == old(self).live()
            },
            r is Err ==> *final(self) == *old(self) && r == Err::<PyLeakedRefMut<P>, Invalidated>(
                Invalidated,
            ),
    {
        if self.generation != cell.state.generation {
            return Err(Invalidated);
        }
        match self.payload.take() {
            Some(p) => Ok(PyLeakedRefMut { data: p, stamp: self.generation }),
            None => unreached(),
        }
    }

    /// Give a mutably borrowed payload back to the lease it was borrowed
    /// from, ending the access.
    pub fn end_borrow_mut(&mut self, guard: PyLeakedRefMut<P>)
        requires
            old(self).payload() is None,
            guard.stamp() == old(self).stamp(),
        ensures
            final(self).payload() == Some(guard.value()),
            final(self).stamp() == old(self).stamp(),
            final(self).live() == old(self).live(),
    {
        self.payload = Some(guard.data);
    }

    /// Transform the payload, consuming this handle and producing a new one
    /// that carries the same generation stamp and the same claim on the
    /// cell's lease count.  The typical use turns a fresh lease into a
    /// cursor over the leased value, immediately after the lease was taken.
    ///
    /// The lease must still be valid: transforming a lease that a later
    /// exclusive access invalidated is a broken contract in the caller, not
    /// a recoverable condition, so it is excluded here rather than reported.
    pub fn map<T, Q, F: FnOnce(&T, P) -> Q>(
        self,
        cell: &PySharedRefCell<T>,
        _tok: &LockToken,
        f: F,
    ) -> (r: PyLeaked<Q>)
        requires
            cell.wf(),
            self.live(),
            self.payload() is Some,
            lease_valid(self.stamp(), cell.sharing()),
            call_requires(f, (&cell.stored().unwrap(), self.payload().unwrap())),
        ensures
            r.stamp() == self.stamp(),
            r.live(),
            r.payload() is Some,
            call_ensures(
                f,
                (&cell.stored().unwrap(), self.payload().unwrap()),
                r.payload().unwrap(),
            ),
    {
        let payload = match self.payload {
            Some(p) => p,
            None => unreached(),
        };
        let value = match &cell.value {
            Some(v) => v,
            None => unreached(),
        };
        let new_payload = f(value, payload);
        PyLeaked { payload: Some(new_payload), generation: self.generation, claim: true }
    }

    /// Release this lease's claim on the lease count of the cell it was
    /// taken from — the claim being live, that cell's count is positive.
    /// The handle stays usable — later accesses simply keep validating the
    /// generation — but it no longer blocks exclusive access.
    pub fn release<T>(&mut self, cell: &mut PySharedRefCell<T>, tok: &LockToken)
        requires
            old(self).live(),
            old(cell).wf(),
            old(cell).sharing().leak_count > 0,
        ensures
            final(cell).wf(),
            final(cell).sharing() == drop_lease(old(cell).sharing()),
            final(cell).stored() == old(cell).stored(),
            !final(self).live(),
            final(self).stamp() == old(self).stamp(),
            final(self).payload() == old(self).payload(),
    {
        cell.state.release_shared(tok);
        self.claim = false;
    }
}

impl<'a, T> PyLeakedRef<'a, T> {
    /// The borrowed value.
    pub open(crate) spec fn value(self) -> T {
        *self.data
    }

    /// Read the borrowed value.
    pub fn get(&self) -> (r: &'a T)
        ensures
            *r == self.value(),
    {
        self.data
    }
}

impl<P> PyLeakedRefMut<P> {
    /// The payload this guard holds.
    pub open(crate) spec fn value(self) -> P {
        self.data
    }

    /// The generation stamp of the lease this guard was borrowed from.
    pub open(crate) spec fn stamp(self) -> u64 {
        self.stamp
    }

    /// Read the held payload.
    pub fn get(&self) -> (r: &P)
        ensures
            *r == self.value(),
    {
        &self.data
    }
}

} // verus!
