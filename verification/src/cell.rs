//! The shared cell: the one gateway through which exclusive or shared access
//! to the wrapped value is requested, and the scoped guard that carries
//! exclusive access.

use vstd::prelude::*;

use crate::state::{
    clear_exclusive, grant_exclusive, initial_state, AlreadyBorrowed, LockToken, PySharedState,
};

verus! {

/// A cell owning a value of type `T` together with its sharing bookkeeping.
///
/// While an exclusive guard is outstanding the value itself lives inside the
/// guard, so the slot is empty exactly when `mutably_borrowed` is set; that
/// is the well-formedness invariant [`PySharedRefCell::wf`].
#[derive(Debug)]
pub struct PySharedRefCell<T> {
    pub(crate) value: Option<T>,
    pub(crate) state: PySharedState,
}

/// A scoped guard carrying exclusive, writable access to the value of a
/// [`PySharedRefCell`].  It owns the value for its whole lifetime and must
/// be given back with [`PyRefMut::release`], the only way the cell's
/// exclusive-borrow flag returns to false.
#[derive(Debug)]
pub struct PyRefMut<T> {
    pub(crate) value: T,
    pub(crate) stamp: u64,
}

impl<T> PySharedRefCell<T> {
    /// The sharing bookkeeping of this cell.
    pub open(crate) spec fn sharing(self) -> PySharedState {
        self.state
    }

    /// The value slot: `Some` unless an exclusive guard holds the value.
    pub open(crate) spec fn stored(self) -> Option<T> {
        self.value
    }

    /// Well-formedness: the slot is full exactly when no exclusive guard is
    /// outstanding, and exclusive and shared access never coexist.
    pub open spec fn wf(self) -> bool {
        &&& self.stored() is Some <==> !self.sharing().mutably_borrowed
        &&& self.sharing().safe()
    }

    /// Wrap a value, with fresh bookkeeping.
    pub fn new(value: T) -> (c: Self)
        ensures
            c.wf(),
            c.stored() == Some(value),
            c.sharing() == initial_state(),
    {
        PySharedRefCell { value: Some(value), state: PySharedState::new() }
    }

    /// Plain read access, permitted only while no exclusive guard is
    /// outstanding.  Takes no lease and is not generation-checked.
    pub fn borrow(&self, _tok: &LockToken) -> (r: &T)
        requires
            self.wf(),
            !self.sharing().mutably_borrowed,
        ensures
            Some(*r) == self.stored(),
    {
        match &self.value {
            Some(v) => v,
            None => unreached(),
        }
    }

    /// Ask for exclusive access.  Fails while an exclusive guard or any
    /// shared lease is outstanding; otherwise bumps the generation and moves
    /// the value into the returned guard.
    pub fn borrow_mut(&mut self, tok: &LockToken) -> (r: Result<PyRefMut<T>, AlreadyBorrowed>)
        requires
            old(self).wf(),
        ensures
            final(self).wf(),
            r is Ok <==> old(self).sharing().can_grant_exclusive(),
            r matches Ok(g) ==> {
                &&& final(self).sharing() == grant_exclusive(old(self).sharing())
                &&& final(self).stored() is None
                &&& Some(g.value()) == old(self).stored()
                &&& g.stamp() == final(self).sharing().generation
            },
            r is Err ==> *final(self) == *old(self),
            old(self).sharing().mutably_borrowed ==> (r matches Err(e) && e
                == AlreadyBorrowed::ExclusiveOutstanding),
            !old(self).sharing().mutably_borrowed && old(self).sharing().leak_count > 0
                ==> (r matches Err(e) && e == AlreadyBorrowed::SharedOutstanding),
    {
        match self.state.request_exclusive(tok) {
            Err(e) => Err(e),
            Ok(()) => {
                let value = match self.value.take() {
                    Some(v) => v,
                    None => unreached(),
                };
                Ok(PyRefMut { value, stamp: self.state.current_generation(tok) })
            },
        }
    }

    /// The current generation counter of this cell.
    pub fn current_generation(&self, _tok: &LockToken) -> (g: u64)
        ensures
            g == self.sharing().generation,
    {
        self.state.generation
    }
}

impl<T> PyRefMut<T> {
    /// The value this guard carries.
    pub open(crate) spec fn value(self) -> T {
        self.value
    }

    /// The generation at which this guard was granted.
    pub open(crate) spec fn stamp(self) -> u64 {
        self.stamp
    }

    /// Read the guarded value.
    pub fn get(&self) -> (r: &T)
        ensures
            *r == self.value(),
    {
        &self.value
    }

    /// Overwrite the guarded value.
    pub fn set(&mut self, v: T)
        ensures
            final(self).value() == v,
            final(self).stamp() == old(self).stamp(),
    {
        self.value = v;
    }

    /// Swap the guarded value, returning the previous one.
    pub fn replace(&mut self, v: T) -> (r: T)
        ensures
            r == old(self).value(),
            final(self).value() == v,
            final(self).stamp() == old(self).stamp(),
    {
        let mut v = v;
        core::mem::swap(&mut self.value, &mut v);
        v
    }

    /// Release exclusive access, giving the value back to the cell it came
    /// from.  Restores the borrow flag to false and leaves the lease count
    /// and the generation unchanged.
    pub fn release(self, cell: &mut PySharedRefCell<T>, tok: &LockToken)
        requires
            old(cell).wf(),
            old(cell).sharing().mutably_borrowed,
            self.stamp() == old(cell).sharing().generation,
        ensures
            final(cell).wf(),
            final(cell).sharing() == clear_exclusive(old(cell).sharing()),
            final(cell).stored() == Some(self.value()),
    {
        cell.state.release_exclusive(tok);
        cell.value = Some(self.value);
    }
}

} // verus!
