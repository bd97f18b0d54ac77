//! Small concrete allocators for exercising the handle: a bump-pointer
//! stub over a fixed backing region, a stub that refuses every request
//! above a fixed size, and a stub pinned to one thread.
//!
//! None of these is a real allocation strategy; they exist so that the
//! erasure layer has fully specified allocators to wrap, in proofs and
//! in tests.

use std::rc::Rc;
use vstd::prelude::*;

use crate::capability::AllocError;
use crate::capability::Allocator;
use crate::capability::Block;
use crate::capability::DuplicableAllocator;
use crate::capability::Layout;

verus! {

/// A bump-pointer stub allocator: hands out consecutive aligned blocks
/// from a fixed backing region of `capacity` bytes starting at `base`,
/// never reuses storage, and records how many deallocate calls it has
/// seen.
#[derive(Clone, Copy, PartialEq, Eq, Structural, Debug)]
pub struct BumpAllocator {
    /// First address of the backing region.
    pub base: usize,
    /// Size of the backing region in bytes.
    pub capacity: usize,
    /// Bytes of the region consumed so far; the cursor stands at
    /// `base + used`.
    pub used: usize,
    /// How many deallocate calls the allocator has recorded.
    pub deallocs: usize,
}

impl BumpAllocator {
    /// Padding that advances the cursor to the next multiple of `align`.
    pub open spec fn spec_pad(self, align: usize) -> int {
        let cursor = self.base + self.used;
        if cursor % (align as int) == 0 {
            0
        } else {
            align - cursor % (align as int)
        }
    }

    /// What any allocation request does: if the padded request fits in
    /// the free remainder of the region, the cursor advances past an
    /// aligned block of exactly the requested size; otherwise nothing
    /// changes and the request fails.
    pub open spec fn spec_bump(self, layout: Layout) -> (BumpAllocator, Result<Block, AllocError>) {
        let pad = self.spec_pad(layout.align);
        if pad + layout.size <= self.capacity - self.used {
            (
                BumpAllocator {
                    used: (self.used + pad + layout.size) as usize,
                    ..self
                },
                Ok(
                    Block {
                        addr: (self.base + self.used + pad) as usize,
                        size: layout.size,
                    },
                ),
            )
        } else {
            (self, Err(AllocError))
        }
    }

    /// The allocator after recording one more deallocate call.
    pub open spec fn spec_record_dealloc(self) -> BumpAllocator {
        if self.deallocs == usize::MAX {
            self
        } else {
            BumpAllocator { deallocs: (self.deallocs + 1) as usize, ..self }
        }
    }

    /// A fresh bump allocator over the region `[base, base + capacity)`.
    pub fn new(base: usize, capacity: usize) -> (a: BumpAllocator)
        requires
            base + capacity <= usize::MAX,
        ensures
            a == (BumpAllocator { base, capacity, used: 0, deallocs: 0 }),
            a.inv(),
    {
        BumpAllocator { base, capacity, used: 0, deallocs: 0 }
    }

    /// The shared body of every storage-handing request.
    fn bump(&mut self, layout: Layout) -> (r: Result<Block, AllocError>)
        requires
            old(self).inv(),
            layout.wf(),
        ensures
            *final(self) == old(self).spec_bump(layout).0,
            r == old(self).spec_bump(layout).1,
            (*final(self)).inv(),
            r matches Ok(b) ==> b.fits(layout),
    {
        let cursor = self.base + self.used;
        let rem = cursor % layout.align;
        let pad: usize = if rem == 0 {
            0
        } else {
            layout.align - rem
        };
        let free = self.capacity - self.used;
        if pad <= free && layout.size <= free - pad {
            let addr = cursor + pad;
            proof {
                let a = layout.align as int;
                let c = cursor as int;
                let q = c / a;
                vstd::arithmetic::div_mod::lemma_fundamental_div_mod(c, a);
                vstd::arithmetic::div_mod::lemma_mod_bound(c, a);
                assert(c == a * q + c % a);
                if c % a == 0 {
                    vstd::arithmetic::div_mod::lemma_mod_multiples_basic(q, a);
                    assert(addr as int == q * a);
                } else {
                    vstd::arithmetic::div_mod::lemma_mod_multiples_basic(q + 1, a);
                    assert((q + 1) * a == q * a + a) by (nonlinear_arith);
                    assert(addr as int == (q + 1) * a);
                }
            }
            self.used = self.used + pad + layout.size;
            Ok(Block { addr, size: layout.size })
        } else {
            Err(AllocError)
        }
    }
}

impl Allocator for BumpAllocator {
    /// The region lies within the address space and the cursor within
    /// the region.
    open spec fn inv(self) -> bool {
        &&& self.base + self.capacity <= usize::MAX
        &&& self.used <= self.capacity
    }

    /// Four words of bookkeeping.
    open spec fn spec_self_layout() -> Layout {
        Layout { size: 32, align: 8 }
    }

    open spec fn step_allocate(self, layout: Layout) -> (Self, Result<Block, AllocError>) {
        self.spec_bump(layout)
    }

    open spec fn step_allocate_zeroed(self, layout: Layout) -> (Self, Result<Block, AllocError>) {
        self.spec_bump(layout)
    }

    /// Any block inside the backing region may be handed back.
    open spec fn can_release(self, ptr: usize, layout: Layout) -> bool {
        &&& self.base <= ptr
        &&& ptr + layout.size <= self.base + self.capacity
    }

    open spec fn step_deallocate(self, ptr: usize, layout: Layout) -> Self {
        self.spec_record_dealloc()
    }

    /// Growing never moves the cursor back: the old block is abandoned
    /// and a fresh one is handed out.
    open spec fn step_grow(self, ptr: usize, old_layout: Layout, new_layout: Layout) -> (
        Self,
        Result<Block, AllocError>,
    ) {
        self.spec_bump(new_layout)
    }

    open spec fn step_grow_zeroed(self, ptr: usize, old_layout: Layout, new_layout: Layout) -> (
        Self,
        Result<Block, AllocError>,
    ) {
        self.spec_bump(new_layout)
    }

    /// Shrinking, too, hands out a fresh block; the stub never reuses
    /// storage.
    open spec fn step_shrink(self, ptr: usize, old_layout: Layout, new_layout: Layout) -> (
        Self,
        Result<Block, AllocError>,
    ) {
        self.spec_bump(new_layout)
    }

    fn self_layout() -> (l: Layout) {
        Layout { size: 32, align: 8 }
    }

    fn allocate(&mut self, layout: Layout) -> (r: Result<Block, AllocError>) {
        self.bump(layout)
    }

    fn allocate_zeroed(&mut self, layout: Layout) -> (r: Result<Block, AllocError>) {
        self.bump(layout)
    }

    fn deallocate(&mut self, ptr: usize, layout: Layout) {
        if self.deallocs < usize::MAX {
            self.deallocs = self.deallocs + 1;
        }
    }

    fn grow(&mut self, ptr: usize, old_layout: Layout, new_layout: Layout) -> (r: Result<
        Block,
        AllocError,
    >) {
        self.bump(new_layout)
    }

    fn grow_zeroed(&mut self, ptr: usize, old_layout: Layout, new_layout: Layout) -> (r: Result<
        Block,
        AllocError,
    >) {
        self.bump(new_layout)
    }

    fn shrink(&mut self, ptr: usize, old_layout: Layout, new_layout: Layout) -> (r: Result<
        Block,
        AllocError,
    >) {
        self.bump(new_layout)
    }
}

impl DuplicableAllocator for BumpAllocator {
    fn duplicate(&self) -> (r: Self) {
        *self
    }
}

/// A stub allocator that reports failure for every request above a fixed
/// size limit and answers the rest with a fictitious block at the bottom
/// of the address space. It holds no storage and never changes state.
#[derive(Clone, Copy, PartialEq, Eq, Structural, Debug)]
pub struct FailAllocator {
    /// Requests larger than this many bytes fail.
    pub limit: usize,
}

impl FailAllocator {
    /// What any storage-handing request does: failure above the limit, a
    /// fictitious block otherwise; the state never changes.
    pub open spec fn spec_answer(self, layout: Layout) -> (FailAllocator, Result<
        Block,
        AllocError,
    >) {
        if layout.size <= self.limit {
            (self, Ok(Block { addr: 0, size: layout.size }))
        } else {
            (self, Err(AllocError))
        }
    }

    /// A stub that refuses every request above `limit` bytes.
    pub fn new(limit: usize) -> (a: FailAllocator)
        ensures
            a == (FailAllocator { limit }),
    {
        FailAllocator { limit }
    }

    /// The shared body of every storage-handing request.
    fn answer(&self, layout: Layout) -> (r: Result<Block, AllocError>)
        requires
            layout.wf(),
        ensures
            r == self.spec_answer(layout).1,
            r matches Ok(b) ==> b.fits(layout),
    {
        if layout.size <= self.limit {
            proof {
                vstd::arithmetic::div_mod::lemma_mod_multiples_basic(0, layout.align as int);
            }
            Ok(Block { addr: 0, size: layout.size })
        } else {
            Err(AllocError)
        }
    }
}

impl Allocator for FailAllocator {
    open spec fn inv(self) -> bool {
        true
    }

    /// One word of bookkeeping, so wrapping it as owned succeeds exactly
    /// when the limit admits an eight-byte request.
    open spec fn spec_self_layout() -> Layout {
        Layout { size: 8, align: 1 }
    }

    open spec fn step_allocate(self, layout: Layout) -> (Self, Result<Block, AllocError>) {
        self.spec_answer(layout)
    }

    open spec fn step_allocate_zeroed(self, layout: Layout) -> (Self, Result<Block, AllocError>) {
        self.spec_answer(layout)
    }

    /// The stub accepts any block back, and ignores it.
    open spec fn can_release(self, ptr: usize, layout: Layout) -> bool {
        true
    }

    open spec fn step_deallocate(self, ptr: usize, layout: Layout) -> Self {
        self
    }

    open spec fn step_grow(self, ptr: usize, old_layout: Layout, new_layout: Layout) -> (
        Self,
        Result<Block, AllocError>,
    ) {
        self.spec_answer(new_layout)
    }

    open spec fn step_grow_zeroed(self, ptr: usize, old_layout: Layout, new_layout: Layout) -> (
        Self,
        Result<Block, AllocError>,
    ) {
        self.spec_answer(new_layout)
    }

    open spec fn step_shrink(self, ptr: usize, old_layout: Layout, new_layout: Layout) -> (
        Self,
        Result<Block, AllocError>,
    ) {
        self.spec_answer(new_layout)
    }

    fn self_layout() -> (l: Layout) {
        Layout { size: 8, align: 1 }
    }

    fn allocate(&mut self, layout: Layout) -> (r: Result<Block, AllocError>) {
        self.answer(layout)
    }

    fn allocate_zeroed(&mut self, layout: Layout) -> (r: Result<Block, AllocError>) {
        self.answer(layout)
    }

    fn deallocate(&mut self, ptr: usize, layout: Layout) {
    }

    fn grow(&mut self, ptr: usize, old_layout: Layout, new_layout: Layout) -> (r: Result<
        Block,
        AllocError,
    >) {
        self.answer(new_layout)
    }

    fn grow_zeroed(&mut self, ptr: usize, old_layout: Layout, new_layout: Layout) -> (r: Result<
        Block,
        AllocError,
    >) {
        self.answer(new_layout)
    }

    fn shrink(&mut self, ptr: usize, old_layout: Layout, new_layout: Layout) -> (r: Result<
        Block,
        AllocError,
    >) {
        self.answer(new_layout)
    }
}

impl DuplicableAllocator for FailAllocator {
    fn duplicate(&self) -> (r: Self) {
        *self
    }
}

/// A stub allocator pinned to the thread that made it: the reference
/// count inside makes it neither sendable nor shareable, so only the
/// local handle variant can wrap it. It refuses every request.
pub struct PinnedAllocator {
    /// Pins the value to its thread.
    pub pin: Rc<()>,
}

impl PinnedAllocator {
    /// A fresh pinned stub.
    pub fn new() -> (a: PinnedAllocator) {
        PinnedAllocator { pin: Rc::new(()) }
    }
}

impl Allocator for PinnedAllocator {
    open spec fn inv(self) -> bool {
        true
    }

    open spec fn spec_self_layout() -> Layout {
        Layout { size: 8, align: 1 }
    }

    open spec fn step_allocate(self, layout: Layout) -> (Self, Result<Block, AllocError>) {
        (self, Err(AllocError))
    }

    open spec fn step_allocate_zeroed(self, layout: Layout) -> (Self, Result<Block, AllocError>) {
        (self, Err(AllocError))
    }

    /// Nothing was ever handed out, so nothing may come back.
    open spec fn can_release(self, ptr: usize, layout: Layout) -> bool {
        false
    }

    open spec fn step_deallocate(self, ptr: usize, layout: Layout) -> Self {
        self
    }

    open spec fn step_grow(self, ptr: usize, old_layout: Layout, new_layout: Layout) -> (
        Self,
        Result<Block, AllocError>,
    ) {
        (self, Err(AllocError))
    }

    open spec fn step_grow_zeroed(self, ptr: usize, old_layout: Layout, new_layout: Layout) -> (
        Self,
        Result<Block, AllocError>,
    ) {
        (self, Err(AllocError))
    }

    open spec fn step_shrink(self, ptr: usize, old_layout: Layout, new_layout: Layout) -> (
        Self,
        Result<Block, AllocError>,
    ) {
        (self, Err(AllocError))
    }

    fn self_layout() -> (l: Layout) {
        Layout { size: 8, align: 1 }
    }

    fn allocate(&mut self, layout: Layout) -> (r: Result<Block, AllocError>) {
        Err(AllocError)
    }

    fn allocate_zeroed(&mut self, layout: Layout) -> (r: Result<Block, AllocError>) {
        Err(AllocError)
    }

    fn deallocate(&mut self, ptr: usize, layout: Layout) {
    }

    fn grow(&mut self, ptr: usize, old_layout: Layout, new_layout: Layout) -> (r: Result<
        Block,
        AllocError,
    >) {
        Err(AllocError)
    }

    fn grow_zeroed(&mut self, ptr: usize, old_layout: Layout, new_layout: Layout) -> (r: Result<
        Block,
        AllocError,
    >) {
        Err(AllocError)
    }

    fn shrink(&mut self, ptr: usize, old_layout: Layout, new_layout: Layout) -> (r: Result<
        Block,
        AllocError,
    >) {
        Err(AllocError)
    }
}

} // verus!
