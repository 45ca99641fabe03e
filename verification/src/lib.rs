//! A reference-counted, interior-mutable cell with a logical enable/disable
//! flag and resurrection.
//!
//! One heap block carries a generic payload together with a single signed
//! control word: the word's magnitude is the physical handle count and its
//! sign is a logical flag, independent of physical liveness. A [`FlagCell`]
//! is the at-most-one owning handle; a [`FlagRef`] is a cloneable shared
//! handle that may outlive the owner. Destroying the owner while shared
//! references remain disables the block without freeing it; a disabled
//! reference can later *resurrect* a fresh owner. Payload access goes
//! through runtime-checked shared/exclusive borrow guards, and every
//! fallible accessor reports through the [`FlagRefOption`] status type.
//!
//! Blocks live in an explicit [`BlockPool`], the crate's stand-in for the
//! heap: every handle operation takes the pool, and whichever handle drives
//! the physical count to zero frees the block — exactly once.

pub mod cell;
pub mod flag_ref;
pub mod guard;
pub mod inner;
pub mod laws;
pub mod pool;
pub mod status;

pub use cell::FlagCell;
pub use flag_ref::FlagRef;
pub use guard::ExclusiveGuard;
pub use guard::SharedGuard;
pub use inner::is_dangling;
pub use inner::InnerFlag;
pub use pool::Block;
pub use pool::BlockPool;
pub use status::FlagRefOption;
