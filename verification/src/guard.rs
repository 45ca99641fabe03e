//! Borrow guards for the payload.
//!
//! A granted borrow is represented by a guard value that records which block
//! it was taken on. While a `SharedGuard` is outstanding the block's shared
//! borrow count stays positive; while an `ExclusiveGuard` is outstanding the
//! block's exclusive mark is set. A guard is released explicitly, which
//! hands its slot in the bookkeeping back; payload access goes through the
//! guard and the store it was taken on.

use crate::inner::InnerFlag;
use crate::pool::exclusive_borrow_ok;
use crate::pool::live;
use crate::pool::shared_borrow_ok;
use crate::pool::reads_at;
use crate::pool::value_at;
use crate::pool::with_reads;
use crate::pool::with_value;
use crate::pool::with_writing;
use crate::pool::writing_at;
use crate::pool::Block;
use crate::pool::BlockPool;
use vstd::prelude::*;

verus! {

/// A granted shared borrow of a block's payload.
#[derive(Debug)]
pub struct SharedGuard<T> {
    /// The handle of the block the borrow was taken on.
    pub inner: InnerFlag<T>,
}

/// A granted exclusive borrow of a block's payload.
#[derive(Debug)]
pub struct ExclusiveGuard<T> {
    /// The handle of the block the borrow was taken on.
    pub inner: InnerFlag<T>,
}

impl<T> SharedGuard<T> {
    /// The address of the borrowed block.
    pub open spec fn at(self) -> int {
        self.inner.at()
    }

    /// The guard is outstanding on a live block: the block's shared borrow
    /// count accounts for it.
    pub open spec fn held(self, s: Seq<Option<Block<T>>>) -> bool {
        &&& live(s, self.at())
        &&& reads_at(s, self.at()) >= 1
    }

    /// Attempts a shared borrow on the block at `addr`: granted while no
    /// exclusive borrow is outstanding and the counter can still grow.
    pub(crate) fn try_acquire(pool: &mut BlockPool<T>, addr: usize) -> (r: Option<Self>)
        requires
            old(pool).ok(),
            live(old(pool).blocks@, addr as int),
        ensures
            final(pool).ok(),
            shared_borrow_ok(old(pool).blocks@, addr as int) ==> (r matches Some(g)
                && g.inner.addr == addr && g.held(final(pool).blocks@) && final(pool).blocks@
                == with_reads(
                old(pool).blocks@,
                addr as int,
                reads_at(old(pool).blocks@, addr as int) + 1,
            )),
            !shared_borrow_ok(old(pool).blocks@, addr as int) ==> r is None && final(pool).blocks@
                == old(pool).blocks@,
    {
        if pool.writing_of(addr) {
            return None;
        }
        let n = pool.reads_of(addr);
        if n == usize::MAX {
            return None;
        }
        pool.set_reads(addr, n + 1);
        Some(SharedGuard { inner: InnerFlag::from_ptr(addr) })
    }

    /// Reads the borrowed payload.
    pub fn get<'a>(&self, pool: &'a BlockPool<T>) -> (r: &'a T)
        requires
            pool.ok(),
            self.held(pool.blocks@),
        ensures
            *r == value_at(pool.blocks@, self.at()),
    {
        pool.payload_ref(self.inner.inner_ptr())
    }

    /// Releases the borrow: the block's shared borrow count shrinks by one.
    pub fn release(self, pool: &mut BlockPool<T>)
        requires
            old(pool).ok(),
            self.held(old(pool).blocks@),
        ensures
            final(pool).ok(),
            final(pool).blocks@ == with_reads(
                old(pool).blocks@,
                self.at(),
                reads_at(old(pool).blocks@, self.at()) - 1,
            ),
    {
        let n = pool.reads_of(self.inner.inner_ptr());
        pool.set_reads(self.inner.inner_ptr(), n - 1);
    }
}

impl<T> ExclusiveGuard<T> {
    /// The address of the borrowed block.
    pub open spec fn at(self) -> int {
        self.inner.at()
    }

    /// The guard is outstanding on a live block: the block carries the
    /// exclusive mark.
    pub open spec fn held(self, s: Seq<Option<Block<T>>>) -> bool {
        &&& live(s, self.at())
        &&& writing_at(s, self.at())
    }

    /// Attempts an exclusive borrow on the block at `addr`: granted only
    /// while no borrow of either kind is outstanding.
    pub(crate) fn try_acquire(pool: &mut BlockPool<T>, addr: usize) -> (r: Option<Self>)
        requires
            old(pool).ok(),
            live(old(pool).blocks@, addr as int),
        ensures
            final(pool).ok(),
            exclusive_borrow_ok(old(pool).blocks@, addr as int) ==> (r matches Some(g)
                && g.inner.addr == addr && g.held(final(pool).blocks@) && final(pool).blocks@
                == with_writing(old(pool).blocks@, addr as int, true)),
            !exclusive_borrow_ok(old(pool).blocks@, addr as int) ==> r is None
                && final(pool).blocks@ == old(pool).blocks@,
    {
        if pool.writing_of(addr) {
            return None;
        }
        let n = pool.reads_of(addr);
        if n > 0 {
            return None;
        }
        pool.set_writing(addr, true);
        Some(ExclusiveGuard { inner: InnerFlag::from_ptr(addr) })
    }

    /// Reads the borrowed payload.
    pub fn get<'a>(&self, pool: &'a BlockPool<T>) -> (r: &'a T)
        requires
            pool.ok(),
            self.held(pool.blocks@),
        ensures
            *r == value_at(pool.blocks@, self.at()),
    {
        pool.payload_ref(self.inner.inner_ptr())
    }

    /// Writes the borrowed payload, returning the value it replaces.
    pub fn put(&self, pool: &mut BlockPool<T>, value: T) -> (r: T)
        requires
            old(pool).ok(),
            self.held(old(pool).blocks@),
        ensures
            final(pool).ok(),
            r == value_at(old(pool).blocks@, self.at()),
            final(pool).blocks@ == with_value(old(pool).blocks@, self.at(), value),
    {
        pool.swap_payload(self.inner.inner_ptr(), value)
    }

    /// Releases the borrow: the block's exclusive mark is cleared.
    pub fn release(self, pool: &mut BlockPool<T>)
        requires
            old(pool).ok(),
            self.held(old(pool).blocks@),
        ensures
            final(pool).ok(),
            final(pool).blocks@ == with_writing(old(pool).blocks@, self.at(), false),
    {
        pool.set_writing(self.inner.inner_ptr(), false);
    }
}

} // verus!
