//! The laws of the handle lifecycle.
//!
//! Each proof function here states one property of the primitive over the
//! same spec functions the executable contracts use, so that what the
//! contracts promise operation by operation is also written down — and
//! machine-checked — as a property of whole histories of the store.

use crate::flag_ref::FlagRef;
use crate::pool::after_cell_drop;
use crate::pool::after_inc;
use crate::pool::after_resurrect;
use crate::pool::cell_count_at;
use crate::pool::enabled_at;
use crate::pool::exclusive_borrow_ok;
use crate::pool::live;
use crate::pool::mag_at;
use crate::pool::pool_ok;
use crate::pool::reads_at;
use crate::pool::resurrect_allowed;
use crate::pool::shared_borrow_ok;
use crate::pool::state_at;
use crate::pool::with_reads;
use crate::pool::writing_at;
use crate::pool::Block;
use vstd::prelude::*;

verus! {

/// The store after `n` shared references have been derived, one by one,
/// from the block at slot `i`.
pub open spec fn derive_n<T>(s: Seq<Option<Block<T>>>, i: int, n: nat) -> Seq<Option<Block<T>>>
    decreases n,
{
    if n == 0 {
        s
    } else {
        after_inc(derive_n(s, i, (n - 1) as nat), i)
    }
}

/// Law: for every `n >= 0`, after `n` shared references have been derived
/// from a fresh owner's block, the owner reports a count of exactly `n`,
/// and every shared reference bound to that block reports the same `n`.
pub proof fn lemma_fresh_owner_clone_count<T>(s: Seq<Option<Block<T>>>, i: int, n: nat)
    requires
        pool_ok(s),
        live(s, i),
        state_at(s, i) == 1,
        n + 1 <= isize::MAX,
    ensures
        live(derive_n(s, i, n), i),
        state_at(derive_n(s, i, n), i) == 1 + n,
        cell_count_at(derive_n(s, i, n), i) == n,
        forall|r: FlagRef<T>|
            r.at() == i ==> #[trigger] r.count_view(derive_n(s, i, n)) == n,
    decreases n,
{
    if n > 0 {
        lemma_fresh_owner_clone_count(s, i, (n - 1) as nat);
    }
}

/// Law: destroying the owner while `k` shared references survive leaves
/// the block live and disabled, so every surviving reference reports the
/// flag as off and reports the raw physical count `k`, with no owner-slot
/// subtraction — the same `k` the owner reported just before.
pub proof fn lemma_owner_drop_disables<T>(s: Seq<Option<Block<T>>>, i: int, r: FlagRef<T>)
    requires
        pool_ok(s),
        live(s, i),
        enabled_at(s, i),
        mag_at(s, i) >= 2,
        r.at() == i,
    ensures
        ({
            let s2 = after_cell_drop(s, i);
            &&& live(s2, i)
            &&& !r.enabled_view(s2)
            &&& r.count_view(s2) == mag_at(s2, i)
            &&& r.count_view(s2) == cell_count_at(s, i)
        }),
{
}

/// Law: on a disabled block, resurrection is admitted exactly once per
/// disable cycle — afterwards the block is enabled and a further attempt
/// is refused — the fresh owner reports the same count the reference
/// reported before, and every sibling reference flips back to enabled
/// with its reported count unchanged.
pub proof fn lemma_resurrect_cycle<T>(s: Seq<Option<Block<T>>>, i: int, r: FlagRef<T>)
    requires
        pool_ok(s),
        live(s, i),
        mag_at(s, i) >= 1,
        !enabled_at(s, i),
        mag_at(s, i) < isize::MAX,
        r.at() == i,
    ensures
        ({
            let s2 = after_resurrect(s, i);
            &&& resurrect_allowed(s, i)
            &&& !resurrect_allowed(s2, i)
            &&& live(s2, i)
            &&& r.enabled_view(s2)
            &&& cell_count_at(s2, i) == r.count_view(s)
            &&& r.count_view(s2) == r.count_view(s)
        }),
{
}

/// Law: the runtime borrow discipline. On an unborrowed block a shared
/// borrow is granted; while it is outstanding further shared borrows are
/// still granted but an exclusive borrow is refused; once it is released
/// an exclusive borrow is granted.
pub proof fn lemma_borrow_discipline<T>(s: Seq<Option<Block<T>>>, i: int)
    requires
        pool_ok(s),
        live(s, i),
        reads_at(s, i) == 0,
        !writing_at(s, i),
    ensures
        ({
            let s1 = with_reads(s, i, 1);
            let s0 = with_reads(s1, i, 0);
            &&& shared_borrow_ok(s, i)
            &&& shared_borrow_ok(s1, i)
            &&& !exclusive_borrow_ok(s1, i)
            &&& exclusive_borrow_ok(s0, i)
        }),
{
}

/// Law: the empty shared reference is well formed against every store,
/// reports a count of zero and reports the flag as off. (That each of its
/// operations answers `Empty` and leaves the store untouched is stated by
/// those operations' own contracts.)
pub proof fn lemma_empty_ref<T>(r: FlagRef<T>, s: Seq<Option<Block<T>>>)
    requires
        r.is_empty(),
    ensures
        r.wf(s),
        r.count_view(s) == 0,
        !r.enabled_view(s),
{
}

} // verus!
