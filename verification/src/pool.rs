//! The shared block store.
//!
//! Every logical value managed by this crate lives in one `Block`: the payload
//! together with a signed control word and the runtime borrow bookkeeping.
//! Blocks are kept in a `BlockPool`, the explicit stand-in for the heap: a
//! handle names its block by the index at which the block was allocated, and a
//! freed slot is never reused, so a handle address means the same block for the
//! whole life of the pool.

use vstd::pervasive::unreached;
use vstd::prelude::*;

verus! {

/// The reserved address that marks a handle as unbound ("no block").
/// No allocated block can sit at this index, because a pool keeps fewer
/// than `usize::MAX` slots.
pub const EMPTY_ADDR: usize = usize::MAX;

/// One shared block: a payload plus its control state.
///
/// `state` is a single signed word. Its magnitude is the physical handle
/// count (the owning cell, when present, counts as one; every shared
/// reference counts as one more) and its sign is the logical flag:
/// positive means enabled, non-positive means disabled.
///
/// `reads` and `writing` are the runtime borrow bookkeeping for the payload:
/// `reads` counts the outstanding shared borrows, `writing` records an
/// outstanding exclusive borrow.
pub struct Block<T> {
    /// The wrapped value.
    pub value: T,
    /// Signed control word: magnitude = handle count, sign = logical flag.
    pub state: isize,
    /// Number of outstanding shared payload borrows.
    pub reads: usize,
    /// Whether an exclusive payload borrow is outstanding.
    pub writing: bool,
}

/// The store that owns every shared block.
pub struct BlockPool<T> {
    /// A freed slot is set to `None` and never reused.
    pub blocks: Vec<Option<Block<T>>>,
}

/// The magnitude of a signed control word.
pub open spec fn mag_of(st: int) -> int {
    if st >= 0 {
        st
    } else {
        -st
    }
}

/// Whether slot `i` of the store holds a live block.
pub open spec fn live<T>(s: Seq<Option<Block<T>>>, i: int) -> bool {
    0 <= i < s.len() && s[i] is Some
}

/// The block at slot `i`.
pub open spec fn blk<T>(s: Seq<Option<Block<T>>>, i: int) -> Block<T> {
    s[i].unwrap()
}

/// The signed control word of the block at slot `i`.
pub open spec fn state_at<T>(s: Seq<Option<Block<T>>>, i: int) -> int {
    blk(s, i).state as int
}

/// The physical handle count of the block at slot `i`.
pub open spec fn mag_at<T>(s: Seq<Option<Block<T>>>, i: int) -> int {
    mag_of(state_at(s, i))
}

/// Whether the block at slot `i` is logically enabled.
pub open spec fn enabled_at<T>(s: Seq<Option<Block<T>>>, i: int) -> bool {
    state_at(s, i) > 0
}

/// The outstanding shared borrow count of the block at slot `i`.
pub open spec fn reads_at<T>(s: Seq<Option<Block<T>>>, i: int) -> int {
    blk(s, i).reads as int
}

/// Whether the payload of the block at slot `i` is exclusively borrowed.
pub open spec fn writing_at<T>(s: Seq<Option<Block<T>>>, i: int) -> bool {
    blk(s, i).writing
}

/// The payload of the block at slot `i`.
pub open spec fn value_at<T>(s: Seq<Option<Block<T>>>, i: int) -> T {
    blk(s, i).value
}

/// The shared-reference count an owning cell reports: the physical count
/// minus the cell's own slot.
pub open spec fn cell_count_at<T>(s: Seq<Option<Block<T>>>, i: int) -> int {
    mag_at(s, i) - 1
}

/// A shared payload borrow is granted while no exclusive borrow is
/// outstanding and the borrow counter can still grow.
pub open spec fn shared_borrow_ok<T>(s: Seq<Option<Block<T>>>, i: int) -> bool {
    !writing_at(s, i) && reads_at(s, i) < usize::MAX
}

/// An exclusive payload borrow is granted only while no borrow of either
/// kind is outstanding.
pub open spec fn exclusive_borrow_ok<T>(s: Seq<Option<Block<T>>>, i: int) -> bool {
    !writing_at(s, i) && reads_at(s, i) == 0
}

/// Well-formedness of a single live block: its control word has a
/// representable magnitude, and the borrow bookkeeping is consistent.
pub open spec fn block_ok<T>(b: Block<T>) -> bool {
    &&& b.state != isize::MIN
    &&& !(b.writing && b.reads > 0)
}

/// Well-formedness of the whole store.
pub open spec fn pool_ok<T>(s: Seq<Option<Block<T>>>) -> bool {
    &&& s.len() < usize::MAX
    &&& forall|i: int|
        0 <= i < s.len() && s[i] is Some ==> block_ok((#[trigger] s[i]).unwrap())
}

/// The store after the control word of slot `i` is set to `st`.
pub open spec fn with_state<T>(s: Seq<Option<Block<T>>>, i: int, st: int) -> Seq<Option<Block<T>>> {
    s.update(
        i,
        Some(
            Block {
                value: blk(s, i).value,
                state: st as isize,
                reads: blk(s, i).reads,
                writing: blk(s, i).writing,
            },
        ),
    )
}

/// The store after the shared borrow count of slot `i` is set to `n`.
pub open spec fn with_reads<T>(s: Seq<Option<Block<T>>>, i: int, n: int) -> Seq<Option<Block<T>>> {
    s.update(
        i,
        Some(
            Block {
                value: blk(s, i).value,
                state: blk(s, i).state,
                reads: n as usize,
                writing: blk(s, i).writing,
            },
        ),
    )
}

/// The store after the exclusive borrow mark of slot `i` is set to `w`.
pub open spec fn with_writing<T>(s: Seq<Option<Block<T>>>, i: int, w: bool) -> Seq<Option<Block<T>>> {
    s.update(
        i,
        Some(
            Block {
                value: blk(s, i).value,
                state: blk(s, i).state,
                reads: blk(s, i).reads,
                writing: w,
            },
        ),
    )
}

/// The store after the payload of slot `i` is replaced with `v`.
pub open spec fn with_value<T>(s: Seq<Option<Block<T>>>, i: int, v: T) -> Seq<Option<Block<T>>> {
    s.update(
        i,
        Some(
            Block {
                value: v,
                state: blk(s, i).state,
                reads: blk(s, i).reads,
                writing: blk(s, i).writing,
            },
        ),
    )
}

/// A control word after one more handle is counted: the magnitude grows by
/// one and the sign is preserved.
pub open spec fn next_inc(st: int) -> int {
    if st > 0 {
        st + 1
    } else {
        st - 1
    }
}

/// A control word after one handle is released: the magnitude shrinks by
/// one and the sign is preserved.
pub open spec fn next_dec(st: int) -> int {
    if st > 0 {
        st - 1
    } else {
        st + 1
    }
}

/// The store after slot `i` counts one more handle.
pub open spec fn after_inc<T>(s: Seq<Option<Block<T>>>, i: int) -> Seq<Option<Block<T>>> {
    with_state(s, i, next_inc(state_at(s, i)))
}

/// The store after slot `i` releases one handle (without freeing).
pub open spec fn after_dec<T>(s: Seq<Option<Block<T>>>, i: int) -> Seq<Option<Block<T>>> {
    with_state(s, i, next_dec(state_at(s, i)))
}

/// The store after slot `i` is enabled; a no-op when already enabled.
pub open spec fn after_enable<T>(s: Seq<Option<Block<T>>>, i: int) -> Seq<Option<Block<T>>> {
    if enabled_at(s, i) {
        s
    } else {
        with_state(s, i, -state_at(s, i))
    }
}

/// The store after slot `i` is disabled; a no-op when already disabled.
pub open spec fn after_disable<T>(s: Seq<Option<Block<T>>>, i: int) -> Seq<Option<Block<T>>> {
    if enabled_at(s, i) {
        with_state(s, i, -state_at(s, i))
    } else {
        s
    }
}

/// The store after the owning cell of slot `i` is destroyed: the block is
/// disabled and the cell's slot is released; the block is freed when that
/// slot was the last one.
pub open spec fn after_cell_drop<T>(s: Seq<Option<Block<T>>>, i: int) -> Seq<Option<Block<T>>> {
    if mag_at(s, i) == 1 {
        s.update(i, None)
    } else {
        with_state(s, i, -(mag_at(s, i) - 1))
    }
}

/// The store after a shared reference to slot `i` is destroyed: its slot is
/// released, the sign is untouched, and the block is freed when that slot
/// was the last one.
pub open spec fn after_ref_drop<T>(s: Seq<Option<Block<T>>>, i: int) -> Seq<Option<Block<T>>> {
    if mag_at(s, i) == 1 {
        s.update(i, None)
    } else {
        after_dec(s, i)
    }
}

/// The store after slot `i` is resurrected: the block is re-enabled and the
/// fresh owner's slot is counted.
pub open spec fn after_resurrect<T>(s: Seq<Option<Block<T>>>, i: int) -> Seq<Option<Block<T>>> {
    with_state(s, i, mag_at(s, i) + 1)
}

/// Resurrection is permitted exactly while the block is live and logically
/// disabled (no owner is present).
pub open spec fn resurrect_allowed<T>(s: Seq<Option<Block<T>>>, i: int) -> bool {
    live(s, i) && !enabled_at(s, i)
}

impl<T> BlockPool<T> {
    /// Well-formedness of the store.
    pub open spec fn ok(&self) -> bool {
        pool_ok(self.blocks@)
    }

    /// Creates an empty store: no blocks, nothing allocated.
    pub fn new() -> (pool: Self)
        ensures
            pool.ok(),
            pool.blocks@.len() == 0,
    {
        BlockPool { blocks: Vec::new() }
    }

    /// Allocates a fresh block holding `value`, enabled, with one counted
    /// handle (the owner), and returns its address.
    pub(crate) fn allocate(&mut self, value: T) -> (addr: usize)
        requires
            old(self).ok(),
            old(self).blocks@.len() + 1 < usize::MAX,
        ensures
            final(self).ok(),
            addr as int == old(self).blocks@.len(),
            final(self).blocks@ == old(self).blocks@.push(
                Some(Block { value: value, state: 1isize, reads: 0usize, writing: false }),
            ),
    {
        let addr: usize = self.blocks.len();
        self.blocks.push(Some(Block { value, state: 1isize, reads: 0usize, writing: false }));
        addr
    }

    /// Reads the signed control word of the block at `addr`.
    pub(crate) fn state_of(&self, addr: usize) -> (st: isize)
        requires
            self.ok(),
            live(self.blocks@, addr as int),
        ensures
            st as int == state_at(self.blocks@, addr as int),
    {
        match &self.blocks[addr] {
            Some(b) => b.state,
            None => unreached(),
        }
    }

    /// Sets the signed control word of the block at `addr`.
    pub(crate) fn set_state(&mut self, addr: usize, st: isize)
        requires
            old(self).ok(),
            live(old(self).blocks@, addr as int),
            st != isize::MIN,
        ensures
            final(self).ok(),
            final(self).blocks@ == with_state(old(self).blocks@, addr as int, st as int),
    {
        let slot = &mut self.blocks[addr];
        match slot {
            Some(b) => {
                b.state = st;
            },
            None => {
                unreached::<()>();
            },
        }
    }

    /// Reads the outstanding shared borrow count of the block at `addr`.
    pub(crate) fn reads_of(&self, addr: usize) -> (n: usize)
        requires
            self.ok(),
            live(self.blocks@, addr as int),
        ensures
            n as int == reads_at(self.blocks@, addr as int),
    {
        match &self.blocks[addr] {
            Some(b) => b.reads,
            None => unreached(),
        }
    }

    /// Sets the outstanding shared borrow count of the block at `addr`.
    pub(crate) fn set_reads(&mut self, addr: usize, n: usize)
        requires
            old(self).ok(),
            live(old(self).blocks@, addr as int),
            writing_at(old(self).blocks@, addr as int) ==> n == 0,
        ensures
            final(self).ok(),
            final(self).blocks@ == with_reads(old(self).blocks@, addr as int, n as int),
    {
        let slot = &mut self.blocks[addr];
        match slot {
            Some(b) => {
                b.reads = n;
            },
            None => {
                unreached::<()>();
            },
        }
    }

    /// Reads the exclusive borrow mark of the block at `addr`.
    pub(crate) fn writing_of(&self, addr: usize) -> (w: bool)
        requires
            self.ok(),
            live(self.blocks@, addr as int),
        ensures
            w == writing_at(self.blocks@, addr as int),
    {
        match &self.blocks[addr] {
            Some(b) => b.writing,
            None => unreached(),
        }
    }

    /// Sets the exclusive borrow mark of the block at `addr`.
    pub(crate) fn set_writing(&mut self, addr: usize, w: bool)
        requires
            old(self).ok(),
            live(old(self).blocks@, addr as int),
            w ==> reads_at(old(self).blocks@, addr as int) == 0,
        ensures
            final(self).ok(),
            final(self).blocks@ == with_writing(old(self).blocks@, addr as int, w),
    {
        let slot = &mut self.blocks[addr];
        match slot {
            Some(b) => {
                b.writing = w;
            },
            None => {
                unreached::<()>();
            },
        }
    }

    /// Borrows the payload of the block at `addr`.
    pub(crate) fn payload_ref<'a>(&'a self, addr: usize) -> (r: &'a T)
        requires
            self.ok(),
            live(self.blocks@, addr as int),
        ensures
            *r == value_at(self.blocks@, addr as int),
    {
        match &self.blocks[addr] {
            Some(b) => &b.value,
            None => unreached(),
        }
    }

    /// Swaps the payload of the block at `addr` with `value`, returning the
    /// payload that was there.
    pub(crate) fn swap_payload(&mut self, addr: usize, value: T) -> (r: T)
        requires
            old(self).ok(),
            live(old(self).blocks@, addr as int),
        ensures
            final(self).ok(),
            r == value_at(old(self).blocks@, addr as int),
            final(self).blocks@ == with_value(old(self).blocks@, addr as int, value),
    {
        let mut v = value;
        let slot = &mut self.blocks[addr];
        match slot {
            Some(b) => {
                core::mem::swap(&mut b.value, &mut v);
            },
            None => {
                unreached::<()>();
            },
        }
        v
    }

    /// Removes the block at `addr` from the store and hands it back whole;
    /// the slot stays empty forever. This is the single deallocation point.
    pub(crate) fn take_block(&mut self, addr: usize) -> (b: Block<T>)
        requires
            old(self).ok(),
            live(old(self).blocks@, addr as int),
        ensures
            final(self).ok(),
            b == blk(old(self).blocks@, addr as int),
            final(self).blocks@ == old(self).blocks@.update(addr as int, None),
    {
        let mut slot: Option<Block<T>> = None;
        core::mem::swap(&mut self.blocks[addr], &mut slot);
        match slot {
            Some(b) => b,
            None => unreached(),
        }
    }
}

} // verus!
