//! What holds of the protocol over whole histories of requests, not just
//! over one call: the safety invariant, and the exact characterization of
//! when a lease is still valid.
//!
//! The executable operations of [`crate::state::PySharedState`] promise, in
//! their `ensures`, that each successful call takes the bookkeeping to
//! [`crate::state::grant_exclusive`], [`crate::state::grant_shared`],
//! [`crate::state::clear_exclusive`] or [`crate::state::drop_lease`] of the
//! old bookkeeping, and that each refused or forbidden call leaves it
//! unchanged.  [`step`] gathers those four outcomes into one transition
//! function, so a sequence of requests made against one cell is exactly a
//! [`run`] of this model.

use vstd::arithmetic::div_mod::{
    lemma_add_mod_noop_right, lemma_mod_multiples_vanish, lemma_small_mod,
};
use vstd::prelude::*;

use crate::state::{
    clear_exclusive, drop_lease, grant_exclusive, grant_shared, lease_valid, next_generation,
    PySharedState,
};

verus! {

/// One request made against a cell's sharing bookkeeping.
pub enum SharedRequest {
    /// Ask for exclusive access.
    AcquireExclusive,
    /// Ask for a shared lease.
    AcquireShared,
    /// Give exclusive access back.
    ReleaseExclusive,
    /// Give one shared lease back.
    ReleaseShared,
}

/// Whether `r` takes effect against `s`.  An acquire that would conflict is
/// refused and changes nothing; a release whose caller-side precondition
/// does not hold is forbidden to begin with, so the model lets it change
/// nothing as well.
pub open spec fn enabled(s: PySharedState, r: SharedRequest) -> bool {
    match r {
        SharedRequest::AcquireExclusive => s.can_grant_exclusive(),
        SharedRequest::AcquireShared => s.can_grant_shared() && s.leak_count < u64::MAX,
        SharedRequest::ReleaseExclusive => s.mutably_borrowed && s.leak_count == 0,
        SharedRequest::ReleaseShared => s.leak_count > 0,
    }
}

/// The bookkeeping after one request.
pub open spec fn step(s: PySharedState, r: SharedRequest) -> PySharedState {
    if !enabled(s, r) {
        s
    } else {
        match r {
            SharedRequest::AcquireExclusive => grant_exclusive(s),
            SharedRequest::AcquireShared => grant_shared(s),
            SharedRequest::ReleaseExclusive => clear_exclusive(s),
            SharedRequest::ReleaseShared => drop_lease(s),
        }
    }
}

/// The bookkeeping after a whole sequence of requests.
pub open spec fn run(s: PySharedState, rs: Seq<SharedRequest>) -> PySharedState
    decreases rs.len(),
{
    if rs.len() == 0 {
        s
    } else {
        run(step(s, rs[0]), rs.drop_first())
    }
}

/// How many times the sequence of requests is granted exclusive access.
pub open spec fn exclusive_grants(s: PySharedState, rs: Seq<SharedRequest>) -> nat
    decreases rs.len(),
{
    if rs.len() == 0 {
        0
    } else {
        (if rs[0] is AcquireExclusive && enabled(s, rs[0]) {
            1nat
        } else {
            0nat
        }) + exclusive_grants(step(s, rs[0]), rs.drop_first())
    }
}

/// One request keeps the core safety invariant: exclusive and shared access
/// never coexist.
pub proof fn lemma_step_preserves_safety(s: PySharedState, r: SharedRequest)
    requires
        s.safe(),
    ensures
        step(s, r).safe(),
{
}

/// For every sequence of exclusive and shared requests, made against any
/// safe bookkeeping, the bookkeeping stays safe: an exclusive borrow and a
/// positive lease count are never recorded at the same time.
pub proof fn lemma_requests_preserve_safety(s: PySharedState, rs: Seq<SharedRequest>)
    requires
        s.safe(),
    ensures
        run(s, rs).safe(),
    decreases rs.len(),
{
    if rs.len() > 0 {
        lemma_step_preserves_safety(s, rs[0]);
        lemma_requests_preserve_safety(step(s, rs[0]), rs.drop_first());
    }
}

/// An exclusive request made while shared leases are outstanding is refused
/// and changes nothing.  (The executable `request_exclusive` additionally
/// promises that the refusal is reported as `AlreadyBorrowed`.)
pub proof fn lemma_exclusive_refused_while_leased(s: PySharedState)
    requires
        s.leak_count > 0,
    ensures
        !enabled(s, SharedRequest::AcquireExclusive),
        step(s, SharedRequest::AcquireExclusive) == s,
{
}

/// A shared request made while exclusive access is outstanding is refused
/// and changes nothing.  (The executable `request_shared` additionally
/// promises that the refusal is reported as `AlreadyBorrowed`.)
pub proof fn lemma_shared_refused_while_exclusive(s: PySharedState)
    requires
        s.mutably_borrowed,
    ensures
        !enabled(s, SharedRequest::AcquireShared),
        step(s, SharedRequest::AcquireShared) == s,
{
}

/// Releasing exclusive access always restores the borrow flag to false and
/// leaves both the lease count and the generation exactly as they were.
pub proof fn lemma_release_exclusive_restores(s: PySharedState)
    requires
        s.mutably_borrowed,
        s.leak_count == 0,
    ensures
        !step(s, SharedRequest::ReleaseExclusive).mutably_borrowed,
        step(s, SharedRequest::ReleaseExclusive).leak_count == s.leak_count,
        step(s, SharedRequest::ReleaseExclusive).generation == s.generation,
{
}

/// Two leases stamped with the same generation validate identically against
/// every bookkeeping.  Together with `PyLeaked::map`'s promise that the
/// transformed handle carries the stamp of the handle it consumed, this says
/// a transformed lease is later accepted or rejected exactly as the original
/// would have been.
pub proof fn lemma_same_stamp_same_validation(stamp_a: u64, stamp_b: u64, s: PySharedState)
    requires
        stamp_a == stamp_b,
    ensures
        lease_valid(stamp_a, s) <==> lease_valid(stamp_b, s),
{
}

/// Once the last outstanding lease is released — as the iterator adapter
/// does the moment its cursor runs dry — the very next exclusive request is
/// granted, even though the consumer object may still be around.
pub proof fn lemma_last_release_enables_exclusive(s: PySharedState)
    requires
        !s.mutably_borrowed,
        s.leak_count == 1,
    ensures
        enabled(step(s, SharedRequest::ReleaseShared), SharedRequest::AcquireExclusive),
{
}

/// The number of distinct generation values: one more than `u64::MAX`.
pub open spec fn generation_modulus() -> int {
    0x1_0000_0000_0000_0000
}

/// The generation counter after `k` further exclusive grants.
pub open spec fn advance_generation(g: u64, k: nat) -> u64
    decreases k,
{
    if k == 0 {
        g
    } else {
        advance_generation(next_generation(g), (k - 1) as nat)
    }
}

/// Advancing the generation `k` times adds `k`, modulo the counter's range.
pub proof fn lemma_advance_generation_mod(g: u64, k: nat)
    ensures
        advance_generation(g, k) == (g + k) % generation_modulus(),
    decreases k,
{
    let m = generation_modulus();
    if k == 0 {
        lemma_small_mod(g as nat, m as nat);
    } else {
        lemma_advance_generation_mod(next_generation(g), (k - 1) as nat);
        assert(next_generation(g) == (g + 1) % m) by {
            if g == u64::MAX {
                lemma_mod_multiples_vanish(1, 0, m);
            } else {
                lemma_small_mod((g + 1) as nat, m as nat);
            }
        }
        lemma_add_mod_noop_right(k - 1, g + 1, m);
        assert((k - 1 + (g + 1) % m) % m == (k - 1 + (g + 1)) % m);
        assert(advance_generation(g, k) == ((g + 1) % m + (k - 1)) % m);
    }
}

/// Running a sequence of requests advances the generation once per
/// exclusive grant and in no other way.
pub proof fn lemma_run_generation(s: PySharedState, rs: Seq<SharedRequest>)
    ensures
        run(s, rs).generation == advance_generation(s.generation, exclusive_grants(s, rs)),
    decreases rs.len(),
{
    if rs.len() > 0 {
        let s1 = step(s, rs[0]);
        lemma_run_generation(s1, rs.drop_first());
        if rs[0] is AcquireExclusive && enabled(s, rs[0]) {
            lemma_advance_commutes(s.generation, exclusive_grants(s1, rs.drop_first()));
        }
    }
}

/// Advancing once and then `k` times is advancing `k + 1` times.
proof fn lemma_advance_commutes(g: u64, k: nat)
    ensures
        advance_generation(next_generation(g), k) == advance_generation(g, k + 1),
{
}

/// While no exclusive access is granted, the borrow flag stays clear.
pub proof fn lemma_no_grants_keeps_unlocked(s: PySharedState, rs: Seq<SharedRequest>)
    requires
        !s.mutably_borrowed,
        exclusive_grants(s, rs) == 0,
    ensures
        !run(s, rs).mutably_borrowed,
    decreases rs.len(),
{
    if rs.len() > 0 {
        lemma_no_grants_keeps_unlocked(step(s, rs[0]), rs.drop_first());
    }
}

/// A lease stamped at its creation succeeds on later validation **exactly
/// when** no exclusive access has been granted since: against the
/// bookkeeping `s0` that issued the stamp, any later sequence of requests
/// leaves the lease valid if and only if it granted exclusive access zero
/// times.
///
/// The one proviso is that the requests do not wrap the whole generation
/// counter: a history of more than `u64::MAX` exclusive grants could cycle
/// the counter back onto the stamp.
pub proof fn lemma_lease_validity(s0: PySharedState, rs: Seq<SharedRequest>, stamp: u64)
    requires
        !s0.mutably_borrowed,
        stamp == s0.generation,
        exclusive_grants(s0, rs) <= u64::MAX,
    ensures
        lease_valid(stamp, run(s0, rs)) <==> exclusive_grants(s0, rs) == 0,
        run(s0, rs).generation == stamp <==> exclusive_grants(s0, rs) == 0,
{
    let m = generation_modulus();
    let k = exclusive_grants(s0, rs);
    let g = s0.generation;
    lemma_run_generation(s0, rs);
    lemma_advance_generation_mod(g, k);
    if k == 0 {
        lemma_small_mod(g as nat, m as nat);
        lemma_no_grants_keeps_unlocked(s0, rs);
    } else {
        assert((g + k) % m != g) by {
            if g + k < m {
                lemma_small_mod((g + k) as nat, m as nat);
            } else {
                lemma_mod_multiples_vanish(1, g + k - m, m);
                lemma_small_mod((g + k - m) as nat, m as nat);
            }
        }
    }
}

} // verus!
