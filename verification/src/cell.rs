//! The owning cell.
//!
//! A `FlagCell` is the logical owner of a shared block: at most one is live
//! per block at a time, created fresh by allocation or by resurrection. Its
//! presence is counted in the block's control word like any other handle;
//! releasing it disables the block, and frees the block when the cell held
//! the last counted slot.

use crate::flag_ref::FlagRef;
use crate::guard::ExclusiveGuard;
use crate::guard::SharedGuard;
use crate::inner::InnerFlag;
use crate::pool::after_cell_drop;
use crate::pool::after_disable;
use crate::pool::after_enable;
use crate::pool::after_inc;
use crate::pool::cell_count_at;
use crate::pool::enabled_at;
use crate::pool::exclusive_borrow_ok;
use crate::pool::mag_at;
use crate::pool::reads_at;
use crate::pool::shared_borrow_ok;
use crate::pool::value_at;
use crate::pool::with_reads;
use crate::pool::with_value;
use crate::pool::with_writing;
use crate::pool::Block;
use crate::pool::BlockPool;
use vstd::pervasive::unreached;
use vstd::prelude::*;

verus! {

/// The owning handle of a shared block.
///
/// While the cell is live its slot is counted in the block's control word.
/// The cell does not carry the block itself: every operation takes the
/// store the block lives in.
#[derive(Debug)]
pub struct FlagCell<T> {
    /// The raw control handle of the owned block.
    pub inner: InnerFlag<T>,
}

impl<T> FlagCell<T> {
    /// The address of the owned block.
    pub open spec fn at(self) -> int {
        self.inner.at()
    }

    /// The cell points at a live, consistently counted block.
    pub open spec fn wf(self, s: Seq<Option<Block<T>>>) -> bool {
        self.inner.valid(s)
    }

    /// Wraps a raw control handle as an owning cell.
    pub(crate) fn from_inner(inner: InnerFlag<T>) -> (c: Self)
        ensures
            c.inner == inner,
    {
        FlagCell { inner }
    }

    /// Allocates a fresh shared block holding `value`: enabled, with the
    /// cell's own slot as the only counted handle.
    pub fn new(pool: &mut BlockPool<T>, value: T) -> (c: Self)
        requires
            old(pool).ok(),
            old(pool).blocks@.len() + 1 < usize::MAX,
        ensures
            final(pool).ok(),
            c.at() == old(pool).blocks@.len(),
            c.wf(final(pool).blocks@),
            final(pool).blocks@ == old(pool).blocks@.push(
                Some(Block { value, state: 1isize, reads: 0usize, writing: false }),
            ),
    {
        let addr = pool.allocate(value);
        FlagCell::from_inner(InnerFlag::from_ptr(addr))
    }

    /// The number of shared references to the block: the physical count
    /// minus the cell's own slot.
    pub fn ref_count(&self, pool: &BlockPool<T>) -> (r: isize)
        requires
            pool.ok(),
            self.wf(pool.blocks@),
        ensures
            r as int == cell_count_at(pool.blocks@, self.at()),
    {
        self.inner.ref_count(pool) - 1
    }

    /// Whether the block is logically enabled.
    pub fn is_enabled(&self, pool: &BlockPool<T>) -> (r: bool)
        requires
            pool.ok(),
            self.wf(pool.blocks@),
        ensures
            r == enabled_at(pool.blocks@, self.at()),
    {
        self.inner.is_enabled(pool)
    }

    /// Enables the block. Reports `Some(())` when a change was made,
    /// `None` when it was already enabled.
    pub fn enable(&self, pool: &mut BlockPool<T>) -> (r: Option<()>)
        requires
            old(pool).ok(),
            self.wf(old(pool).blocks@),
        ensures
            final(pool).ok(),
            final(pool).blocks@ == after_enable(old(pool).blocks@, self.at()),
            r is Some <==> !enabled_at(old(pool).blocks@, self.at()),
    {
        self.inner.enable(pool)
    }

    /// Disables the block, which makes every derived shared reference
    /// refuse payload access until it is re-enabled. Reports `Some(())`
    /// when a change was made, `None` when it was already disabled.
    pub fn disable(&self, pool: &mut BlockPool<T>) -> (r: Option<()>)
        requires
            old(pool).ok(),
            self.wf(old(pool).blocks@),
        ensures
            final(pool).ok(),
            final(pool).blocks@ == after_disable(old(pool).blocks@, self.at()),
            r is Some <==> enabled_at(old(pool).blocks@, self.at()),
    {
        self.inner.disable(pool)
    }

    /// Takes a shared borrow of the payload. The caller rules out a
    /// conflict; for the variant that reports one instead, use
    /// [`try_borrow`](Self::try_borrow).
    pub fn borrow(&self, pool: &mut BlockPool<T>) -> (g: SharedGuard<T>)
        requires
            old(pool).ok(),
            self.wf(old(pool).blocks@),
            shared_borrow_ok(old(pool).blocks@, self.at()),
        ensures
            final(pool).ok(),
            g.inner.addr == self.inner.addr,
            g.held(final(pool).blocks@),
            final(pool).blocks@ == with_reads(
                old(pool).blocks@,
                self.at(),
                reads_at(old(pool).blocks@, self.at()) + 1,
            ),
    {
        match SharedGuard::try_acquire(pool, self.inner.inner_ptr()) {
            Some(g) => g,
            None => unreached(),
        }
    }

    /// Takes an exclusive borrow of the payload. The caller rules out a
    /// conflict; for the variant that reports one instead, use
    /// [`try_borrow_mut`](Self::try_borrow_mut).
    pub fn borrow_mut(&self, pool: &mut BlockPool<T>) -> (g: ExclusiveGuard<T>)
        requires
            old(pool).ok(),
            self.wf(old(pool).blocks@),
            exclusive_borrow_ok(old(pool).blocks@, self.at()),
        ensures
            final(pool).ok(),
            g.inner.addr == self.inner.addr,
            g.held(final(pool).blocks@),
            final(pool).blocks@ == with_writing(old(pool).blocks@, self.at(), true),
    {
        match ExclusiveGuard::try_acquire(pool, self.inner.inner_ptr()) {
            Some(g) => g,
            None => unreached(),
        }
    }

    /// Attempts a shared borrow of the payload, refused while an exclusive
    /// borrow is outstanding.
    pub fn try_borrow(&self, pool: &mut BlockPool<T>) -> (r: Option<SharedGuard<T>>)
        requires
            old(pool).ok(),
            self.wf(old(pool).blocks@),
        ensures
            final(pool).ok(),
            shared_borrow_ok(old(pool).blocks@, self.at()) ==> (r matches Some(g)
                && g.inner.addr == self.inner.addr && g.held(final(pool).blocks@)
                && final(pool).blocks@ == with_reads(
                old(pool).blocks@,
                self.at(),
                reads_at(old(pool).blocks@, self.at()) + 1,
            )),
            !shared_borrow_ok(old(pool).blocks@, self.at()) ==> r is None && final(pool).blocks@
                == old(pool).blocks@,
    {
        SharedGuard::try_acquire(pool, self.inner.inner_ptr())
    }

    /// Attempts an exclusive borrow of the payload, refused while any
    /// borrow is outstanding.
    pub fn try_borrow_mut(&self, pool: &mut BlockPool<T>) -> (r: Option<ExclusiveGuard<T>>)
        requires
            old(pool).ok(),
            self.wf(old(pool).blocks@),
        ensures
            final(pool).ok(),
            exclusive_borrow_ok(old(pool).blocks@, self.at()) ==> (r matches Some(g)
                && g.inner.addr == self.inner.addr && g.held(final(pool).blocks@)
                && final(pool).blocks@ == with_writing(old(pool).blocks@, self.at(), true)),
            !exclusive_borrow_ok(old(pool).blocks@, self.at()) ==> r is None && final(pool).blocks@
                == old(pool).blocks@,
    {
        ExclusiveGuard::try_acquire(pool, self.inner.inner_ptr())
    }

    /// Derives a new shared reference to the block: the only way shared
    /// references are produced. The block counts one more handle.
    pub fn flag_borrow(&self, pool: &mut BlockPool<T>) -> (r: FlagRef<T>)
        requires
            old(pool).ok(),
            self.wf(old(pool).blocks@),
            mag_at(old(pool).blocks@, self.at()) < isize::MAX,
        ensures
            final(pool).ok(),
            r.inner.addr == self.inner.addr,
            r.wf(final(pool).blocks@),
            final(pool).blocks@ == after_inc(old(pool).blocks@, self.at()),
    {
        let ref_flag = FlagRef { inner: InnerFlag::from_ptr(self.inner.inner_ptr()) };
        ref_flag.inner.inc_ref_count(pool);
        ref_flag
    }

    /// Replaces the payload with `value`, returning the old payload. The
    /// caller rules out outstanding borrows; for the variant that reports
    /// them instead, use [`try_replace`](Self::try_replace).
    pub fn replace(&self, pool: &mut BlockPool<T>, value: T) -> (r: T)
        requires
            old(pool).ok(),
            self.wf(old(pool).blocks@),
            exclusive_borrow_ok(old(pool).blocks@, self.at()),
        ensures
            final(pool).ok(),
            r == value_at(old(pool).blocks@, self.at()),
            final(pool).blocks@ == with_value(old(pool).blocks@, self.at(), value),
    {
        pool.swap_payload(self.inner.inner_ptr(), value)
    }

    /// Replaces the payload with `value`, returning the old payload; while
    /// any borrow is outstanding the new value is handed back unchanged
    /// instead.
    pub fn try_replace(&self, pool: &mut BlockPool<T>, value: T) -> (r: Result<T, T>)
        requires
            old(pool).ok(),
            self.wf(old(pool).blocks@),
        ensures
            final(pool).ok(),
            exclusive_borrow_ok(old(pool).blocks@, self.at()) ==> (r matches Ok(v) && v
                == value_at(old(pool).blocks@, self.at()) && final(pool).blocks@ == with_value(
                old(pool).blocks@,
                self.at(),
                value,
            )),
            !exclusive_borrow_ok(old(pool).blocks@, self.at()) ==> (r matches Err(v) && v == value
                && final(pool).blocks@ == old(pool).blocks@),
    {
        let addr = self.inner.inner_ptr();
        if pool.writing_of(addr) {
            return Err(value);
        }
        if pool.reads_of(addr) > 0 {
            return Err(value);
        }
        Ok(pool.swap_payload(addr, value))
    }

    /// Consumes the cell and extracts the payload by value, freeing the
    /// block. The caller rules out surviving shared references, a disabled
    /// block and outstanding borrows; for the variant that hands the cell
    /// back instead, use [`try_unwrap`](Self::try_unwrap).
    pub fn unwrap(self, pool: &mut BlockPool<T>) -> (r: T)
        requires
            old(pool).ok(),
            self.wf(old(pool).blocks@),
            mag_at(old(pool).blocks@, self.at()) == 1,
            enabled_at(old(pool).blocks@, self.at()),
            exclusive_borrow_ok(old(pool).blocks@, self.at()),
        ensures
            final(pool).ok(),
            r == value_at(old(pool).blocks@, self.at()),
            final(pool).blocks@ == old(pool).blocks@.update(self.at(), None),
    {
        let b = pool.take_block(self.inner.inner_ptr());
        b.value
    }

    /// Consumes the cell and extracts the payload by value, freeing the
    /// block; while shared references survive, the block is disabled or a
    /// borrow is outstanding, the cell is handed back unchanged instead.
    pub fn try_unwrap(self, pool: &mut BlockPool<T>) -> (r: Result<T, Self>)
        requires
            old(pool).ok(),
            self.wf(old(pool).blocks@),
        ensures
            final(pool).ok(),
            ({
                let can = enabled_at(old(pool).blocks@, self.at()) && mag_at(
                    old(pool).blocks@,
                    self.at(),
                ) == 1 && exclusive_borrow_ok(old(pool).blocks@, self.at());
                &&& can ==> (r matches Ok(v) && v == value_at(old(pool).blocks@, self.at())
                    && final(pool).blocks@ == old(pool).blocks@.update(self.at(), None))
                &&& !can ==> (r matches Err(c) && c == self && final(pool).blocks@ == old(
                    pool,
                ).blocks@)
            }),
    {
        let addr = self.inner.inner_ptr();
        let ref_count = self.ref_count(pool);
        if !self.is_enabled(pool) || ref_count > 0 {
            return Err(self);
        }
        if pool.writing_of(addr) || pool.reads_of(addr) > 0 {
            return Err(self);
        }
        let b = pool.take_block(addr);
        Ok(b.value)
    }

    /// Destroys the cell: the block is disabled (idempotently) and the
    /// cell's slot is released. When that slot was the last one the block
    /// is freed — the single deallocation point shared with the shared
    /// references' destructor.
    pub fn release(self, pool: &mut BlockPool<T>)
        requires
            old(pool).ok(),
            self.wf(old(pool).blocks@),
            mag_at(old(pool).blocks@, self.at()) == 1 ==> exclusive_borrow_ok(
                old(pool).blocks@,
                self.at(),
            ),
        ensures
            final(pool).ok(),
            final(pool).blocks@ == after_cell_drop(old(pool).blocks@, self.at()),
    {
        let addr = self.inner.inner_ptr();
        self.inner.disable(pool);
        let new_count = self.inner.dec_ref_count(pool);
        if new_count == 0 {
            pool.take_block(addr);
            proof {
                assert(pool.blocks@ =~= after_cell_drop(old(pool).blocks@, self.at()));
            }
        } else {
            proof {
                assert(pool.blocks@ =~= after_cell_drop(old(pool).blocks@, self.at()));
            }
        }
    }
}

} // verus!
