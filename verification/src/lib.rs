//! A polymorphic allocator handle: the allocate/grow/shrink/deallocate
//! capability set of a concrete allocator, re-exposed through a compact
//! handle that hides the concrete allocator type behind a dispatch table.
//!
//! Addresses are modelled as plain machine words, and the storage that
//! holds wrapped allocator values is modelled by an explicit [`arena::Arena`].
//! A handle is an address paired with a dispatch table; every capability
//! call forwards through the table to the wrapped allocator, unchanged in
//! arguments and result.

use vstd::prelude::*;

pub mod allocator;
pub mod arena;
pub mod capability;
pub mod laws;
pub mod stubs;
pub mod traits;
pub mod vtable;

verus! {

/// A handle bound to the local thread, whatever the wrapped allocator
/// would permit.
pub type LocalPolyAllocator<A> = crate::allocator::PolyAllocator<A, crate::traits::LocalTrait>;

/// A handle that may move to another thread.
pub type SendPolyAllocator<A> = crate::allocator::PolyAllocator<A, crate::traits::SendTrait>;

/// A handle that may be shared between threads.
pub type SharedPolyAllocator<A> = crate::allocator::PolyAllocator<A, crate::traits::SendSyncTrait>;

} // verus!

