//! The shared reference.
//!
//! A `FlagRef` is a lightweight, cloneable handle to a shared block that
//! may outlive the owning cell. A distinguished empty instance — the
//! default value of the type — is bound to no block: every operation on it
//! is a no-op that answers with the `Empty` status. A disabled reference
//! refuses payload access, but can resurrect a fresh owning cell.

use crate::cell::FlagCell;
use crate::guard::ExclusiveGuard;
use crate::guard::SharedGuard;
use crate::inner::is_dangling;
use crate::inner::InnerFlag;
use crate::pool::after_disable;
use crate::pool::after_enable;
use crate::pool::after_inc;
use crate::pool::after_ref_drop;
use crate::pool::after_resurrect;
use crate::pool::enabled_at;
use crate::pool::exclusive_borrow_ok;
use crate::pool::mag_at;
use crate::pool::reads_at;
use crate::pool::shared_borrow_ok;
use crate::pool::with_reads;
use crate::pool::with_writing;
use crate::pool::Block;
use crate::pool::BlockPool;
use crate::pool::EMPTY_ADDR;
use crate::status::FlagRefOption;
use vstd::prelude::*;

verus! {

/// A cloneable shared reference to a shared block, or the empty instance.
#[derive(Debug)]
pub struct FlagRef<T> {
    /// The raw control handle, or the sentinel for the empty instance.
    pub inner: InnerFlag<T>,
}

impl<T> FlagRef<T> {
    /// The address of the referenced block.
    pub open spec fn at(self) -> int {
        self.inner.at()
    }

    /// Whether this is the empty instance, bound to no block.
    pub open spec fn is_empty(self) -> bool {
        self.inner.addr == EMPTY_ADDR
    }

    /// The reference is either empty or points at a live, consistently
    /// counted block.
    pub open spec fn wf(self, s: Seq<Option<Block<T>>>) -> bool {
        self.is_empty() || self.inner.valid(s)
    }

    /// The count this reference reports: zero for the empty instance; for
    /// an enabled block the physical count minus the owner's slot (an
    /// enabled block implies an owner); for a disabled block the raw
    /// physical count.
    pub open spec fn count_view(self, s: Seq<Option<Block<T>>>) -> int {
        if self.is_empty() {
            0
        } else if enabled_at(s, self.at()) {
            mag_at(s, self.at()) - 1
        } else {
            mag_at(s, self.at())
        }
    }

    /// The flag this reference reports: false for the empty instance.
    pub open spec fn enabled_view(self, s: Seq<Option<Block<T>>>) -> bool {
        !self.is_empty() && enabled_at(s, self.at())
    }

    /// Creates the empty instance: bound to no block, every operation on
    /// it answers with the `Empty` status.
    pub fn new() -> (r: Self)
        ensures
            r.is_empty(),
    {
        FlagRef { inner: InnerFlag::from_ptr(EMPTY_ADDR) }
    }

    /// The physical handle count, with the owner's slot subtracted while
    /// the block is enabled; zero for the empty instance.
    pub fn ref_count(&self, pool: &BlockPool<T>) -> (r: isize)
        requires
            pool.ok(),
            self.wf(pool.blocks@),
        ensures
            r as int == self.count_view(pool.blocks@),
    {
        if is_dangling(self.inner.inner_ptr()) {
            return 0;
        }
        if self.inner.is_enabled(pool) {
            self.inner.ref_count(pool) - 1
        } else {
            self.inner.ref_count(pool)
        }
    }

    /// Whether the block is logically enabled; false for the empty
    /// instance.
    pub fn is_enabled(&self, pool: &BlockPool<T>) -> (r: bool)
        requires
            pool.ok(),
            self.wf(pool.blocks@),
        ensures
            r == self.enabled_view(pool.blocks@),
    {
        if is_dangling(self.inner.inner_ptr()) {
            return false;
        }
        self.inner.is_enabled(pool)
    }

    /// Force-enables the block, bypassing the owner-driven lifecycle.
    ///
    /// This is a logically unsafe escape hatch: it invents the flag state
    /// an owning cell would maintain, and can make a shared reference
    /// believe an owner exists when none does. It alters only the logical
    /// flag and never touches the allocation; the caller owns the
    /// responsibility for keeping the higher-level picture consistent.
    pub fn enable(&self, pool: &mut BlockPool<T>) -> (r: FlagRefOption<()>)
        requires
            old(pool).ok(),
            self.wf(old(pool).blocks@),
        ensures
            final(pool).ok(),
            self.is_empty() ==> r is Empty && final(pool).blocks@ == old(pool).blocks@,
            !self.is_empty() ==> r is Success && final(pool).blocks@ == after_enable(
                old(pool).blocks@,
                self.at(),
            ),
    {
        if is_dangling(self.inner.inner_ptr()) {
            return FlagRefOption::Empty;
        }
        self.inner.enable(pool);
        FlagRefOption::Success(())
    }

    /// Force-disables the block, bypassing the owner-driven lifecycle.
    ///
    /// This is a logically unsafe escape hatch, the counterpart of
    /// [`enable`](Self::enable): it refuses payload access to every sibling
    /// reference while an owner may still be live. It alters only the
    /// logical flag and never touches the allocation; the caller owns the
    /// responsibility for keeping the higher-level picture consistent.
    pub fn disable(&self, pool: &mut BlockPool<T>) -> (r: FlagRefOption<()>)
        requires
            old(pool).ok(),
            self.wf(old(pool).blocks@),
        ensures
            final(pool).ok(),
            self.is_empty() ==> r is Empty && final(pool).blocks@ == old(pool).blocks@,
            !self.is_empty() ==> r is Success && final(pool).blocks@ == after_disable(
                old(pool).blocks@,
                self.at(),
            ),
    {
        if is_dangling(self.inner.inner_ptr()) {
            return FlagRefOption::Empty;
        }
        self.inner.disable(pool);
        FlagRefOption::Success(())
    }

    /// Attempts a shared borrow of the payload: `Empty` for the empty
    /// instance, `Disabled` while the block is logically disabled,
    /// `Conflict` when the runtime borrow discipline refuses, otherwise a
    /// live guard.
    pub fn try_borrow(&self, pool: &mut BlockPool<T>) -> (r: FlagRefOption<SharedGuard<T>>)
        requires
            old(pool).ok(),
            self.wf(old(pool).blocks@),
        ensures
            final(pool).ok(),
            self.is_empty() ==> r is Empty && final(pool).blocks@ == old(pool).blocks@,
            !self.is_empty() && !enabled_at(old(pool).blocks@, self.at()) ==> r is Disabled
                && final(pool).blocks@ == old(pool).blocks@,
            !self.is_empty() && enabled_at(old(pool).blocks@, self.at()) && !shared_borrow_ok(
                old(pool).blocks@,
                self.at(),
            ) ==> r is Conflict && final(pool).blocks@ == old(pool).blocks@,
            !self.is_empty() && enabled_at(old(pool).blocks@, self.at()) && shared_borrow_ok(
                old(pool).blocks@,
                self.at(),
            ) ==> (r matches FlagRefOption::Success(g) && g.inner.addr == self.inner.addr
                && g.held(final(pool).blocks@) && final(pool).blocks@ == with_reads(
                old(pool).blocks@,
                self.at(),
                reads_at(old(pool).blocks@, self.at()) + 1,
            )),
    {
        if is_dangling(self.inner.inner_ptr()) {
            return FlagRefOption::Empty;
        }
        if !self.inner.is_enabled(pool) {
            return FlagRefOption::Disabled;
        }
        let borrow = SharedGuard::try_acquire(pool, self.inner.inner_ptr());
        FlagRefOption::from_borrow(borrow)
    }

    /// Attempts an exclusive borrow of the payload: `Empty` for the empty
    /// instance, `Disabled` while the block is logically disabled,
    /// `Conflict` when the runtime borrow discipline refuses, otherwise a
    /// live guard.
    pub fn try_borrow_mut(&self, pool: &mut BlockPool<T>) -> (r: FlagRefOption<ExclusiveGuard<T>>)
        requires
            old(pool).ok(),
            self.wf(old(pool).blocks@),
        ensures
            final(pool).ok(),
            self.is_empty() ==> r is Empty && final(pool).blocks@ == old(pool).blocks@,
            !self.is_empty() && !enabled_at(old(pool).blocks@, self.at()) ==> r is Disabled
                && final(pool).blocks@ == old(pool).blocks@,
            !self.is_empty() && enabled_at(old(pool).blocks@, self.at()) && !exclusive_borrow_ok(
                old(pool).blocks@,
                self.at(),
            ) ==> r is Conflict && final(pool).blocks@ == old(pool).blocks@,
            !self.is_empty() && enabled_at(old(pool).blocks@, self.at()) && exclusive_borrow_ok(
                old(pool).blocks@,
                self.at(),
            ) ==> (r matches FlagRefOption::Success(g) && g.inner.addr == self.inner.addr
                && g.held(final(pool).blocks@) && final(pool).blocks@ == with_writing(
                old(pool).blocks@,
                self.at(),
                true,
            )),
    {
        if is_dangling(self.inner.inner_ptr()) {
            return FlagRefOption::Empty;
        }
        if !self.inner.is_enabled(pool) {
            return FlagRefOption::Disabled;
        }
        let borrow = ExclusiveGuard::try_acquire(pool, self.inner.inner_ptr());
        FlagRefOption::from_borrow(borrow)
    }

    /// Resurrects an owning cell for the block: valid only while the block
    /// is logically disabled (no owner is live). On success the block is
    /// re-enabled and the fresh cell's slot is counted. Answers `Disabled`
    /// while an owner is still present, `Empty` for the empty instance.
    pub fn resurrect(&self, pool: &mut BlockPool<T>) -> (r: FlagRefOption<FlagCell<T>>)
        requires
            old(pool).ok(),
            self.wf(old(pool).blocks@),
            !self.is_empty() && !enabled_at(old(pool).blocks@, self.at()) ==> mag_at(
                old(pool).blocks@,
                self.at(),
            ) < isize::MAX,
        ensures
            final(pool).ok(),
            self.is_empty() ==> r is Empty && final(pool).blocks@ == old(pool).blocks@,
            !self.is_empty() && enabled_at(old(pool).blocks@, self.at()) ==> r is Disabled
                && final(pool).blocks@ == old(pool).blocks@,
            !self.is_empty() && !enabled_at(old(pool).blocks@, self.at()) ==> (r matches
                FlagRefOption::Success(c) && c.inner.addr == self.inner.addr && c.wf(
                final(pool).blocks@,
            ) && final(pool).blocks@ == after_resurrect(old(pool).blocks@, self.at())),
    {
        if is_dangling(self.inner.inner_ptr()) {
            return FlagRefOption::Empty;
        }
        if self.inner.is_enabled(pool) {
            return FlagRefOption::Disabled;
        }
        self.inner.enable(pool);
        self.inner.inc_ref_count(pool);
        proof {
            assert(pool.blocks@ =~= after_resurrect(old(pool).blocks@, self.at()));
        }
        FlagRefOption::Success(FlagCell::from_inner(InnerFlag::from_ptr(self.inner.inner_ptr())))
    }

    /// Clones the reference: the block counts one more handle; cloning the
    /// empty instance just copies the empty marker.
    pub fn clone_ref(&self, pool: &mut BlockPool<T>) -> (r: FlagRef<T>)
        requires
            old(pool).ok(),
            self.wf(old(pool).blocks@),
            !self.is_empty() ==> mag_at(old(pool).blocks@, self.at()) < isize::MAX,
        ensures
            final(pool).ok(),
            r.inner.addr == self.inner.addr,
            r.wf(final(pool).blocks@),
            self.is_empty() ==> final(pool).blocks@ == old(pool).blocks@,
            !self.is_empty() ==> final(pool).blocks@ == after_inc(old(pool).blocks@, self.at()),
    {
        if is_dangling(self.inner.inner_ptr()) {
            return FlagRef::new();
        }
        self.inner.inc_ref_count(pool);
        FlagRef { inner: InnerFlag::from_ptr(self.inner.inner_ptr()) }
    }

    /// Destroys the reference: its slot is released and, when that slot
    /// was the last one, the block is freed — the single deallocation
    /// point shared with the owning cell's destructor. A no-op on the
    /// empty instance.
    pub fn release(self, pool: &mut BlockPool<T>)
        requires
            old(pool).ok(),
            self.wf(old(pool).blocks@),
            !self.is_empty() && mag_at(old(pool).blocks@, self.at()) == 1 ==> exclusive_borrow_ok(
                old(pool).blocks@,
                self.at(),
            ),
        ensures
            final(pool).ok(),
            self.is_empty() ==> final(pool).blocks@ == old(pool).blocks@,
            !self.is_empty() ==> final(pool).blocks@ == after_ref_drop(
                old(pool).blocks@,
                self.at(),
            ),
    {
        let addr = self.inner.inner_ptr();
        if is_dangling(addr) {
            return;
        }
        let new_count = self.inner.dec_ref_count(pool);
        if new_count == 0 {
            pool.take_block(addr);
            proof {
                assert(pool.blocks@ =~= after_ref_drop(old(pool).blocks@, self.at()));
            }
        }
    }
}

impl<T> Default for FlagRef<T> {
    /// Creates the empty instance, exactly as [`FlagRef::new`] does.
    fn default() -> (r: Self)
        ensures
            r.is_empty(),
    {
        FlagRef::new()
    }
}

} // verus!
