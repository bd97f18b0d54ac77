//! Compile-time thread-safety markers for the erased handle.
//!
//! The marker chosen at construction time decides which concrete
//! allocators may be wrapped: each marker's constructors demand the
//! matching auto-trait bounds, so a handle never advertises a guarantee
//! that its wrapped allocator lacks. The handle itself names the wrapped
//! allocator type in a phantom field, so its own auto-traits follow the
//! wrapped allocator; the local marker suppresses both of them.

use core::marker::PhantomData;
use std::rc::Rc;
use vstd::prelude::*;

verus! {

/// Marker for handles that are neither sendable nor shareable across
/// threads, whatever the wrapped allocator permits.
pub struct LocalTrait(PhantomData<Rc<()>>);

/// Marker for handles that may move to another thread but must not be
/// accessed from two threads at once; its constructors demand the
/// matching bound of the wrapped allocator.
pub struct SendTrait(PhantomData<()>);

/// Marker for handles that may be accessed concurrently from several
/// threads; its constructors demand the matching bounds of the wrapped
/// allocator.
pub struct SendSyncTrait(PhantomData<()>);

} // verus!
