//! Cursors over leased data, and the consumer-facing sequence built on a
//! lease whose payload is such a cursor.

use vstd::prelude::*;
use vstd::string::StrSliceExecFns;

use crate::cell::PySharedRefCell;
use crate::leak::{Invalidated, PyLeaked, PyLeakedRefMut};
use crate::state::{drop_lease, LockToken};

verus! {

/// A cursor: a value that yields the elements of some sequence one at a
/// time.  `remaining()` is the sequence of elements not yet yielded; `next`
/// yields the first of them and drops it from the front, or reports the end
/// once nothing remains.
pub trait Cursor: Sized {
    type Item;

    /// The elements this cursor has not yielded yet.
    spec fn remaining(&self) -> Seq<Self::Item>;

    /// Yield the next element, or `None` once the cursor is exhausted.
    fn next(&mut self) -> (r: Option<Self::Item>)
        ensures
            old(self).remaining().len() == 0 ==> r is None
                && final(self).remaining() == old(self).remaining(),
            old(self).remaining().len() > 0 ==> r == Some(old(self).remaining()[0])
                && final(self).remaining() == old(self).remaining().drop_first(),
    ;
}

/// A cursor over the characters of a piece of text, held as its own copy so
/// that it can live inside a lease's payload.
#[derive(Debug)]
pub struct CharCursor {
    pub(crate) chars: Vec<char>,
    pub(crate) pos: usize,
}

impl CharCursor {
    /// Start a cursor at the first of the given characters.
    pub fn new(chars: Vec<char>) -> (c: Self)
        ensures
            c.remaining() == chars@,
    {
        let c = CharCursor { chars, pos: 0 };
        proof {
            assert(c.remaining() =~= c.chars@);
        }
        c
    }

    /// Start a cursor over the characters of the given text.
    pub fn from_text(text: &str) -> (c: Self)
        ensures
            c.remaining() == text@,
    {
        let len = text.unicode_len();
        let mut chars: Vec<char> = Vec::new();
        let mut i: usize = 0;
        while i < len
            invariant
                i <= len,
                len == text@.len(),
                chars@ == text@.subrange(0, i as int),
            decreases len - i,
        {
            let ch = text.get_char(i);
            chars.push(ch);
            proof {
                assert(chars@ =~= text@.subrange(0, i as int + 1));
            }
            i = i + 1;
        }
        proof {
            assert(chars@ =~= text@);
        }
        Self::new(chars)
    }
}

impl Cursor for CharCursor {
    type Item = char;

    open(crate) spec fn remaining(&self) -> Seq<char> {
        if self.pos <= self.chars@.len() {
            self.chars@.skip(self.pos as int)
        } else {
            Seq::empty()
        }
    }

    fn next(&mut self) -> (r: Option<char>) {
        if self.pos < self.chars.len() {
            let c = self.chars[self.pos];
            self.pos = self.pos + 1;
            proof {
                assert(self.remaining() =~= old(self).remaining().drop_first());
            }
            Some(c)
        } else {
            None
        }
    }
}

impl<C: Cursor> PyLeakedRefMut<C> {
    /// Advance the held cursor, yielding its next element.
    pub fn next(&mut self) -> (r: Option<C::Item>)
        ensures
            final(self).stamp() == old(self).stamp(),
            old(self).value().remaining().len() == 0 ==> r is None && final(self).value()
                .remaining() == old(self).value().remaining(),
            old(self).value().remaining().len() > 0 ==> r == Some(
                old(self).value().remaining()[0],
            ) && final(self).value().remaining() == old(self).value().remaining().drop_first(),
    {
        self.data.next()
    }
}

/// A consumer-facing sequence built on a lease whose payload is a cursor.
///
/// The adapter is **Active** while it holds the lease and **Exhausted** once
/// the cursor has run dry; at that moment it releases the lease at once —
/// rather than waiting to be discarded — so that the lease stops blocking
/// exclusive access as soon as the last element is out.
pub struct PySharedIterator<C: Cursor> {
    pub(crate) inner: Option<PyLeaked<C>>,
}

impl<C: Cursor> PySharedIterator<C> {
    /// The lease this adapter drives, while it is still active.
    pub open(crate) spec fn lease(self) -> Option<PyLeaked<C>> {
        self.inner
    }

    /// Whether the adapter still holds its lease.
    pub open spec fn is_active(self) -> bool {
        self.lease() is Some
    }

    /// The generation stamp of the held lease.
    pub open spec fn stamp(self) -> u64 {
        self.lease().unwrap().stamp()
    }

    /// What the held cursor has not yielded yet.
    pub open spec fn remaining(self) -> Seq<C::Item> {
        self.lease().unwrap().payload().unwrap().remaining()
    }

    /// Well-formedness: an active adapter holds a live lease whose payload
    /// is in place.
    pub open spec fn wf(self) -> bool {
        self.is_active() ==> self.lease().unwrap().live() && self.lease().unwrap().payload()
            is Some
    }

    /// Wrap a lease whose payload is a cursor.
    pub fn from_inner(leaked: PyLeaked<C>) -> (it: Self)
        requires
            leaked.live(),
            leaked.payload() is Some,
        ensures
            it.wf(),
            it.is_active(),
            it.lease() == Some(leaked),
    {
        PySharedIterator { inner: Some(leaked) }
    }

    /// Yield the next element of the leased sequence.
    ///
    /// While active, each call re-validates the lease: a stale lease
    /// surfaces as `Invalidated`, not as a silent end of the sequence.  The
    /// first time the cursor runs dry the adapter releases its lease
    /// immediately and reports the end; once exhausted it keeps reporting
    /// the end without touching the cell.
    pub fn next<T>(&mut self, cell: &mut PySharedRefCell<T>, tok: &LockToken) -> (r: Result<
        Option<C::Item>,
        Invalidated,
    >)
        requires
            old(self).wf(),
            old(cell).wf(),
            old(self).is_active() && old(self).stamp() == old(cell).sharing().generation
                ==> old(cell).sharing().leak_count > 0,
        ensures
            final(self).wf(),
            final(cell).wf(),
            !old(self).is_active() ==> r == Ok::<Option<C::Item>, Invalidated>(None)
                && *final(self) == *old(self) && *final(cell) == *old(cell),
            old(self).is_active() && old(self).stamp() != old(cell).sharing().generation ==> r
                == Err::<Option<C::Item>, Invalidated>(Invalidated) && *final(self) == *old(self)
                && *final(cell) == *old(cell),
            old(self).is_active() && old(self).stamp() == old(cell).sharing().generation
                && old(self).remaining().len() == 0 ==> {
                &&& r == Ok::<Option<C::Item>, Invalidated>(None)
                &&& !final(self).is_active()
                &&& final(cell).sharing() == drop_lease(old(cell).sharing())
                &&& final(cell).stored() == old(cell).stored()
            },
            old(self).is_active() && old(self).stamp() == old(cell).sharing().generation
                && old(self).remaining().len() > 0 ==> {
                &&& r == Ok::<Option<C::Item>, Invalidated>(Some(old(self).remaining()[0]))
                &&& *final(cell) == *old(cell)
                &&& final(self).is_active()
                &&& final(self).stamp() == old(self).stamp()
                &&& final(self).remaining() == old(self).remaining().drop_first()
            },
    {
        let inner = self.inner.take();
        match inner {
            None => Ok(None),
            Some(mut leaked) => {
                let mut guard = match leaked.try_borrow_mut(cell, tok) {
                    Err(e) => {
                        self.inner = Some(leaked);
                        return Err(e);
                    },
                    Ok(g) => g,
                };
                let item = guard.next();
                leaked.end_borrow_mut(guard);
                match item {
                    Some(x) => {
                        self.inner = Some(leaked);
                        Ok(Some(x))
                    },
                    None => {
                        leaked.release(cell, tok);
                        Ok(None)
                    },
                }
            },
        }
    }
}

} // verus!
