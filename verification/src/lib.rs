//! A generation-checked reference-leasing protocol.
//!
//! One long-lived owner keeps a value inside a [`cell::PySharedRefCell`] and
//! hands out two kinds of access to it:
//!
//! * exclusive, writable access through a scoped [`cell::PyRefMut`] guard,
//!   granted only while no shared leases are outstanding; and
//! * shared, long-lived leases ([`leak::PyLeaked`]) that a consumer may retain
//!   across arbitrarily many intervening operations.
//!
//! Every grant of exclusive access bumps a generation counter, and every use
//! of a lease re-validates the generation captured when the lease was taken,
//! so a stale lease is a detectable error rather than unsound aliasing.
//! The bookkeeping itself lives in [`state::PySharedState`], and the safety
//! arguments over whole request histories are in [`laws`].

pub mod cell;
pub mod cursor;
pub mod laws;
pub mod leak;
pub mod state;
pub mod ui;
