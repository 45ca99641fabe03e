//! The raw control handle.
//!
//! `InnerFlag` is the low-level, non-owning handle that both public handle
//! types are built on: it holds the raw address of a shared block in the
//! store (or the reserved sentinel address for "no block") and exposes the
//! count and flag primitives on the block's signed control word.

use crate::pool::after_dec;
use crate::pool::after_disable;
use crate::pool::after_enable;
use crate::pool::after_inc;
use crate::pool::enabled_at;
use crate::pool::live;
use crate::pool::mag_at;
use crate::pool::next_dec;
use crate::pool::next_inc;
use crate::pool::state_at;
use crate::pool::Block;
use crate::pool::BlockPool;
use crate::pool::EMPTY_ADDR;
use vstd::prelude::*;

verus! {

/// Answers whether a raw handle address is the reserved sentinel that
/// stands for "no block".
pub fn is_dangling(addr: usize) -> (r: bool)
    ensures
        r == (addr == EMPTY_ADDR),
{
    addr == EMPTY_ADDR
}

/// The raw, non-owning control handle around a shared block.
///
/// It never checks its own address: callers keep it pointed at a live block
/// (or at the sentinel) and hand in the store it belongs to.
#[derive(Debug)]
pub struct InnerFlag<T> {
    /// The raw address of the shared block in its store.
    pub addr: usize,
    /// The payload type the block at `addr` holds.
    pub marker: core::marker::PhantomData<T>,
}

impl<T> InnerFlag<T> {
    /// The handle's address as a store index.
    pub open spec fn at(self) -> int {
        self.addr as int
    }

    /// The handle points at a live, consistently counted block: its slot is
    /// occupied and at least one handle is counted.
    pub open spec fn valid(self, s: Seq<Option<Block<T>>>) -> bool {
        &&& live(s, self.at())
        &&& mag_at(s, self.at()) >= 1
    }

    /// Creates a handle from a raw block address.
    pub fn from_ptr(addr: usize) -> (r: Self)
        ensures
            r.addr == addr,
    {
        InnerFlag { addr, marker: core::marker::PhantomData }
    }

    /// The raw block address the handle wraps.
    pub fn inner_ptr(&self) -> (r: usize)
        ensures
            r == self.addr,
    {
        self.addr
    }

    /// The physical handle count: the magnitude of the control word.
    pub fn ref_count(&self, pool: &BlockPool<T>) -> (r: isize)
        requires
            pool.ok(),
            self.valid(pool.blocks@),
        ensures
            r as int == mag_at(pool.blocks@, self.at()),
    {
        let st = pool.state_of(self.addr);
        if st >= 0 {
            st
        } else {
            -st
        }
    }

    /// Whether the block is logically enabled: the control word is positive.
    pub fn is_enabled(&self, pool: &BlockPool<T>) -> (r: bool)
        requires
            pool.ok(),
            self.valid(pool.blocks@),
        ensures
            r == enabled_at(pool.blocks@, self.at()),
    {
        pool.state_of(self.addr) > 0
    }

    /// Counts one more handle: the magnitude grows by one, the sign is
    /// preserved. Returns the new control word.
    pub fn inc_ref_count(&self, pool: &mut BlockPool<T>) -> (r: isize)
        requires
            old(pool).ok(),
            self.valid(old(pool).blocks@),
            mag_at(old(pool).blocks@, self.at()) < isize::MAX,
        ensures
            final(pool).ok(),
            final(pool).blocks@ == after_inc(old(pool).blocks@, self.at()),
            r as int == next_inc(state_at(old(pool).blocks@, self.at())),
    {
        let val = pool.state_of(self.addr);
        let new_val: isize = if val > 0 {
            val + 1
        } else {
            val - 1
        };
        pool.set_state(self.addr, new_val);
        new_val
    }

    /// Releases one handle: the magnitude shrinks by one, the sign is
    /// preserved. Returns the new control word.
    pub fn dec_ref_count(&self, pool: &mut BlockPool<T>) -> (r: isize)
        requires
            old(pool).ok(),
            self.valid(old(pool).blocks@),
        ensures
            final(pool).ok(),
            final(pool).blocks@ == after_dec(old(pool).blocks@, self.at()),
            r as int == next_dec(state_at(old(pool).blocks@, self.at())),
    {
        let val = pool.state_of(self.addr);
        let new_val: isize = if val > 0 {
            val - 1
        } else {
            val + 1
        };
        pool.set_state(self.addr, new_val);
        new_val
    }

    /// Flips the block to enabled. Reports `Some(())` when a change was
    /// made, `None` when the block was already enabled.
    pub fn enable(&self, pool: &mut BlockPool<T>) -> (r: Option<()>)
        requires
            old(pool).ok(),
            self.valid(old(pool).blocks@),
        ensures
            final(pool).ok(),
            final(pool).blocks@ == after_enable(old(pool).blocks@, self.at()),
            r is Some <==> !enabled_at(old(pool).blocks@, self.at()),
    {
        let val = pool.state_of(self.addr);
        if val > 0 {
            None
        } else {
            pool.set_state(self.addr, -val);
            Some(())
        }
    }

    /// Flips the block to disabled. Reports `Some(())` when a change was
    /// made, `None` when the block was already disabled.
    pub fn disable(&self, pool: &mut BlockPool<T>) -> (r: Option<()>)
        requires
            old(pool).ok(),
            self.valid(old(pool).blocks@),
        ensures
            final(pool).ok(),
            final(pool).blocks@ == after_disable(old(pool).blocks@, self.at()),
            r is Some <==> enabled_at(old(pool).blocks@, self.at()),
    {
        let val = pool.state_of(self.addr);
        if val > 0 {
            pool.set_state(self.addr, -val);
            Some(())
        } else {
            None
        }
    }
}

} // verus!
