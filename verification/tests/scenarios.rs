//! End-to-end scenarios over the leasing protocol, and concrete instances
//! of the properties the contracts promise.

use ref_sharing::cell::PySharedRefCell;
use ref_sharing::cursor::{CharCursor, Cursor, PySharedIterator};
use ref_sharing::leak::Invalidated;
use ref_sharing::state::{AlreadyBorrowed, LockToken, PySharedState};

#[test]
fn shared_lease_refused_while_exclusive_guard_live() {
    let tok = LockToken {};
    let mut cell = PySharedRefCell::new(String::from("new"));
    let g1 = cell.borrow_mut(&tok).unwrap();
    assert_eq!(
        cell.leak_immutable(&tok).unwrap_err(),
        AlreadyBorrowed::ExclusiveOutstanding
    );
    g1.release(&mut cell, &tok);
    assert!(cell.leak_immutable(&tok).is_ok());
}

#[test]
fn lease_invalidated_by_later_mutation() {
    let tok = LockToken {};
    let mut cell = PySharedRefCell::new(String::from("new"));
    assert_eq!(cell.current_generation(&tok), 0);
    let mut l1 = cell.leak_immutable(&tok).unwrap();
    l1.release(&mut cell, &tok);
    let mut guard = cell.borrow_mut(&tok).unwrap();
    guard.set(String::from("changed"));
    guard.release(&mut cell, &tok);
    assert_eq!(cell.current_generation(&tok), 1);
    assert_eq!(l1.try_borrow(&cell, &tok).err(), Some(Invalidated));
}

#[test]
fn iterator_releases_lease_on_exhaustion() {
    let tok = LockToken {};
    let mut cell = PySharedRefCell::new(String::from("new"));
    let leaked = cell.leak_immutable(&tok).unwrap();
    let cursor_lease = leaked.map(&cell, &tok, |s: &String, _payload: ()| {
        CharCursor::from_text(s.as_str())
    });
    let mut it = PySharedIterator::from_inner(cursor_lease);
    assert_eq!(it.next(&mut cell, &tok).unwrap(), Some('n'));
    assert_eq!(it.next(&mut cell, &tok).unwrap(), Some('e'));
    assert_eq!(it.next(&mut cell, &tok).unwrap(), Some('w'));
    assert_eq!(it.next(&mut cell, &tok).unwrap(), None);
    // The lease was released the moment the cursor ran dry, so exclusive
    // access succeeds even though the consumer object is still around.
    assert!(cell.borrow_mut(&tok).is_ok());
    // Once exhausted, the adapter keeps reporting the end of the sequence.
    assert_eq!(it.next(&mut cell, &tok).unwrap(), None);
}

#[test]
fn second_exclusive_guard_refused_first_stays_valid() {
    let tok = LockToken {};
    let mut cell = PySharedRefCell::new(String::from("new"));
    let g1 = cell.borrow_mut(&tok).unwrap();
    assert_eq!(
        cell.borrow_mut(&tok).unwrap_err(),
        AlreadyBorrowed::ExclusiveOutstanding
    );
    assert_eq!(*g1.get(), "new");
    g1.release(&mut cell, &tok);
    assert_eq!(*cell.borrow(&tok), "new");
}

#[test]
fn exclusive_and_shared_access_never_coexist() {
    let tok = LockToken {};
    let mut s = PySharedState::new();
    assert!(!(s.mutably_borrowed && s.leak_count > 0));
    assert!(s.request_shared(&tok).is_ok());
    assert!(!(s.mutably_borrowed && s.leak_count > 0));
    assert!(s.request_shared(&tok).is_ok());
    assert!(!(s.mutably_borrowed && s.leak_count > 0));
    assert!(s.request_exclusive(&tok).is_err());
    assert!(!(s.mutably_borrowed && s.leak_count > 0));
    s.release_shared(&tok);
    s.release_shared(&tok);
    assert!(s.request_exclusive(&tok).is_ok());
    assert!(!(s.mutably_borrowed && s.leak_count > 0));
    assert!(s.request_shared(&tok).is_err());
    assert!(!(s.mutably_borrowed && s.leak_count > 0));
    s.release_exclusive(&tok);
    assert!(!(s.mutably_borrowed && s.leak_count > 0));
}

#[test]
fn lease_valid_exactly_until_exclusive_grant() {
    let tok = LockToken {};
    let mut cell = PySharedRefCell::new(7u64);
    let mut lease = cell.leak_immutable(&tok).unwrap();
    // No exclusive access since the lease was taken: every access succeeds.
    assert_eq!(*lease.try_borrow(&cell, &tok).unwrap().get(), 7);
    assert_eq!(*lease.try_borrow(&cell, &tok).unwrap().get(), 7);
    lease.release(&mut cell, &tok);
    assert_eq!(*lease.try_borrow(&cell, &tok).unwrap().get(), 7);
    // One exclusive grant, and the stamp no longer matches.
    let guard = cell.borrow_mut(&tok).unwrap();
    guard.release(&mut cell, &tok);
    assert!(lease.try_borrow(&cell, &tok).is_err());
}

#[test]
fn exclusive_request_fails_with_already_borrowed_while_leased() {
    let tok = LockToken {};
    let mut s = PySharedState::new();
    assert!(s.request_shared(&tok).is_ok());
    assert_eq!(
        s.request_exclusive(&tok).unwrap_err(),
        AlreadyBorrowed::SharedOutstanding
    );
    assert_eq!(s.leak_count, 1);
    assert_eq!(s.generation, 0);
}

#[test]
fn shared_request_fails_with_already_borrowed_while_exclusive() {
    let tok = LockToken {};
    let mut s = PySharedState::new();
    assert!(s.request_exclusive(&tok).is_ok());
    assert_eq!(
        s.request_shared(&tok).unwrap_err(),
        AlreadyBorrowed::ExclusiveOutstanding
    );
    assert_eq!(s.generation, 1);
}

#[test]
fn releasing_exclusive_restores_flag_and_keeps_counts() {
    let tok = LockToken {};
    let mut s = PySharedState::new();
    assert!(s.request_exclusive(&tok).is_ok());
    assert!(s.mutably_borrowed);
    let generation: u64 = s.generation;
    s.release_exclusive(&tok);
    assert!(!s.mutably_borrowed);
    assert_eq!(s.leak_count, 0);
    assert_eq!(s.generation, generation);
}

#[test]
fn generation_wraps_after_exhausting_the_counter() {
    let tok = LockToken {};
    let mut s = PySharedState {
        mutably_borrowed: false,
        leak_count: 0,
        generation: u64::MAX,
    };
    assert!(s.request_exclusive(&tok).is_ok());
    assert_eq!(s.generation, 0);
}

#[test]
fn transform_keeps_the_generation_stamp() {
    let tok = LockToken {};
    let mut cell = PySharedRefCell::new(String::from("new"));
    let leaked = cell.leak_immutable(&tok).unwrap();
    let mut cursor_lease = leaked.map(&cell, &tok, |s: &String, _payload: ()| {
        CharCursor::from_text(s.as_str())
    });
    // The transformed handle validates exactly as the original would have:
    // fine before any exclusive grant ...
    assert!(cursor_lease.try_borrow(&cell, &tok).is_ok());
    cursor_lease.release(&mut cell, &tok);
    // ... and stale after one, just like a lease taken at the same moment.
    let guard = cell.borrow_mut(&tok).unwrap();
    guard.release(&mut cell, &tok);
    assert!(cursor_lease.try_borrow(&cell, &tok).is_err());
    assert!(cursor_lease.try_borrow_mut(&cell, &tok).is_err());
}

#[test]
fn stale_lease_surfaces_as_error_not_end_of_sequence() {
    let tok = LockToken {};
    let mut cell = PySharedRefCell::new(String::from("new"));
    let leaked = cell.leak_immutable(&tok).unwrap();
    let mut cursor_lease = leaked.map(&cell, &tok, |s: &String, _payload: ()| {
        CharCursor::from_text(s.as_str())
    });
    cursor_lease.release(&mut cell, &tok);
    let mut it = PySharedIterator::from_inner(cursor_lease);
    let guard = cell.borrow_mut(&tok).unwrap();
    guard.release(&mut cell, &tok);
    assert!(it.next(&mut cell, &tok).is_err());
    // The adapter stays active after a stale access: the error repeats.
    assert!(it.next(&mut cell, &tok).is_err());
}

#[test]
fn char_cursor_yields_each_character_once() {
    let mut c = CharCursor::from_text("new");
    assert_eq!(c.next(), Some('n'));
    assert_eq!(c.next(), Some('e'));
    assert_eq!(c.next(), Some('w'));
    assert_eq!(c.next(), None);
    assert_eq!(c.next(), None);
}

#[test]
fn char_cursor_over_empty_text_is_done_at_once() {
    let mut c = CharCursor::from_text("");
    assert_eq!(c.next(), None);
    let mut d = CharCursor::new(Vec::new());
    assert_eq!(d.next(), None);
}

#[test]
fn borrowed_out_payload_comes_back_with_end_borrow_mut() {
    let tok = LockToken {};
    let mut cell = PySharedRefCell::new(String::from("new"));
    let leaked = cell.leak_immutable(&tok).unwrap();
    let mut cursor_lease = leaked.map(&cell, &tok, |s: &String, _payload: ()| {
        CharCursor::from_text(s.as_str())
    });
    let mut guard = cursor_lease.try_borrow_mut(&cell, &tok).unwrap();
    assert_eq!(guard.next(), Some('n'));
    cursor_lease.end_borrow_mut(guard);
    let mut guard = cursor_lease.try_borrow_mut(&cell, &tok).unwrap();
    assert_eq!(guard.next(), Some('e'));
    cursor_lease.end_borrow_mut(guard);
}

#[test]
fn many_shared_leases_coexist() {
    let tok = LockToken {};
    let mut cell = PySharedRefCell::new(1u64);
    let a = cell.leak_immutable(&tok).unwrap();
    let b = cell.leak_immutable(&tok).unwrap();
    let c = cell.leak_immutable(&tok).unwrap();
    assert_eq!(*a.try_borrow(&cell, &tok).unwrap().get(), 1);
    assert_eq!(*b.try_borrow(&cell, &tok).unwrap().get(), 1);
    assert_eq!(*c.try_borrow(&cell, &tok).unwrap().get(), 1);
    assert_eq!(
        cell.borrow_mut(&tok).unwrap_err(),
        AlreadyBorrowed::SharedOutstanding
    );
}
