//! The dispatch table and the forwarding functions behind it.
//!
//! A table stands between a handle and the allocator its address refers
//! to. The six capability forwarders are the same whichever way the
//! allocator is held, so the whole difference between the two table
//! flavours is the destroy/duplicate pair they select; the table records
//! exactly that choice. Construction is pure, and two tables built for
//! the same ownership mode are equal, so table identity carries no more
//! information than the mode.

use vstd::prelude::*;

use crate::arena::Arena;
use crate::arena::Slot;
use crate::capability::AllocError;
use crate::capability::Allocator;
use crate::capability::Block;
use crate::capability::DuplicableAllocator;
use crate::capability::Layout;
use crate::capability::Request;
use crate::capability::step_req;

verus! {

/// Which destroy/duplicate pair a table realizes.
#[derive(Clone, Copy, PartialEq, Eq, Structural, Debug)]
pub enum OwnershipMode {
    /// Destroy releases the allocator and the storage it hosts itself in;
    /// duplicate deep-copies it into fresh storage.
    Owned,
    /// Destroy is a no-op; duplicate copies the address only, sharing the
    /// referent.
    Borrowed,
}

/// Allocator dispatch table: the per-mode strategy that realizes the
/// capability set, and the destroy/duplicate lifecycle, against a
/// handle's untyped address.
#[derive(Clone, Copy, PartialEq, Eq, Structural, Debug)]
pub struct RawPolyAllocVTable {
    /// The ownership strategy the table was built for.
    pub mode: OwnershipMode,
}

impl RawPolyAllocVTable {
    /// The table for handles that own their allocator, bound to wrapped
    /// type `A`; owning requires the duplication capability.
    pub fn owned<A: DuplicableAllocator>() -> (t: RawPolyAllocVTable)
        ensures
            t.mode == OwnershipMode::Owned,
    {
        RawPolyAllocVTable { mode: OwnershipMode::Owned }
    }

    /// The table for handles that borrow an externally-owned allocator of
    /// type `A`.
    pub fn borrowed<A: Allocator>() -> (t: RawPolyAllocVTable)
        ensures
            t.mode == OwnershipMode::Borrowed,
    {
        RawPolyAllocVTable { mode: OwnershipMode::Borrowed }
    }
}

/// What one forwarded capability call does: the allocator behind `this`
/// steps exactly as a direct call would, every other slot is untouched,
/// and the caller sees the direct call's outcome.
pub open spec fn spec_dispatch<A: Allocator>(
    entries: Seq<Slot<A>>,
    this: int,
    req: Request,
) -> (Seq<Slot<A>>, Option<Result<Block, AllocError>>)
    recommends
        0 <= this < entries.len(),
{
    let stepped = step_req(entries[this].value(), req);
    (entries.update(this, entries[this].with_value(stepped.0)), stepped.1)
}

/// Forwarding function for `allocate`.
pub fn allocate<A: Allocator>(arena: &mut Arena<A>, this: usize, layout: Layout) -> (r: Result<
    Block,
    AllocError,
>)
    requires
        old(arena).wf(),
        old(arena).slot_occupied(this as int),
        layout.wf(),
    ensures
        final(arena)@ == spec_dispatch(old(arena)@, this as int, Request::Allocate(layout)).0,
        Some(r) == spec_dispatch(old(arena)@, this as int, Request::Allocate(layout)).1,
        final(arena).wf(),
        r matches Ok(b) ==> b.fits(layout),
{
    match arena.perform(this, Request::Allocate(layout)) {
        Some(r) => r,
        None => unreached(),
    }
}

/// Forwarding function for `allocate_zeroed`.
pub fn allocate_zeroed<A: Allocator>(arena: &mut Arena<A>, this: usize, layout: Layout) -> (r:
    Result<Block, AllocError>)
    requires
        old(arena).wf(),
        old(arena).slot_occupied(this as int),
        layout.wf(),
    ensures
        final(arena)@ == spec_dispatch(old(arena)@, this as int, Request::AllocateZeroed(layout)).0,
        Some(r) == spec_dispatch(old(arena)@, this as int, Request::AllocateZeroed(layout)).1,
        final(arena).wf(),
        r matches Ok(b) ==> b.fits(layout),
{
    match arena.perform(this, Request::AllocateZeroed(layout)) {
        Some(r) => r,
        None => unreached(),
    }
}

/// Forwarding function for `deallocate`.
pub fn deallocate<A: Allocator>(arena: &mut Arena<A>, this: usize, ptr: usize, layout: Layout)
    requires
        old(arena).wf(),
        old(arena).slot_occupied(this as int),
        layout.wf(),
        old(arena)@[this as int].value().can_release(ptr, layout),
    ensures
        final(arena)@ == spec_dispatch(old(arena)@, this as int, Request::Deallocate(ptr, layout)).0,
        final(arena).wf(),
{
    let _ = arena.perform(this, Request::Deallocate(ptr, layout));
}

/// Forwarding function for `grow`.
pub fn grow<A: Allocator>(
    arena: &mut Arena<A>,
    this: usize,
    ptr: usize,
    old_layout: Layout,
    new_layout: Layout,
) -> (r: Result<Block, AllocError>)
    requires
        old(arena).wf(),
        old(arena).slot_occupied(this as int),
        old_layout.wf(),
        new_layout.wf(),
        new_layout.size >= old_layout.size,
        old(arena)@[this as int].value().can_release(ptr, old_layout),
    ensures
        final(arena)@ == spec_dispatch(
            old(arena)@,
            this as int,
            Request::Grow(ptr, old_layout, new_layout),
        ).0,
        Some(r) == spec_dispatch(old(arena)@, this as int, Request::Grow(ptr, old_layout, new_layout)).1,
        final(arena).wf(),
        r matches Ok(b) ==> b.fits(new_layout),
{
    match arena.perform(this, Request::Grow(ptr, old_layout, new_layout)) {
        Some(r) => r,
        None => unreached(),
    }
}

/// Forwarding function for `grow_zeroed`.
pub fn grow_zeroed<A: Allocator>(
    arena: &mut Arena<A>,
    this: usize,
    ptr: usize,
    old_layout: Layout,
    new_layout: Layout,
) -> (r: Result<Block, AllocError>)
    requires
        old(arena).wf(),
        old(arena).slot_occupied(this as int),
        old_layout.wf(),
        new_layout.wf(),
        new_layout.size >= old_layout.size,
        old(arena)@[this as int].value().can_release(ptr, old_layout),
    ensures
        final(arena)@ == spec_dispatch(
            old(arena)@,
            this as int,
            Request::GrowZeroed(ptr, old_layout, new_layout),
        ).0,
        Some(r) == spec_dispatch(
            old(arena)@,
            this as int,
            Request::GrowZeroed(ptr, old_layout, new_layout),
        ).1,
        final(arena).wf(),
        r matches Ok(b) ==> b.fits(new_layout),
{
    match arena.perform(this, Request::GrowZeroed(ptr, old_layout, new_layout)) {
        Some(r) => r,
        None => unreached(),
    }
}

/// Forwarding function for `shrink`.
pub fn shrink<A: Allocator>(
    arena: &mut Arena<A>,
    this: usize,
    ptr: usize,
    old_layout: Layout,
    new_layout: Layout,
) -> (r: Result<Block, AllocError>)
    requires
        old(arena).wf(),
        old(arena).slot_occupied(this as int),
        old_layout.wf(),
        new_layout.wf(),
        new_layout.size <= old_layout.size,
        old(arena)@[this as int].value().can_release(ptr, old_layout),
    ensures
        final(arena)@ == spec_dispatch(
            old(arena)@,
            this as int,
            Request::Shrink(ptr, old_layout, new_layout),
        ).0,
        Some(r) == spec_dispatch(
            old(arena)@,
            this as int,
            Request::Shrink(ptr, old_layout, new_layout),
        ).1,
        final(arena).wf(),
        r matches Ok(b) ==> b.fits(new_layout),
{
    match arena.perform(this, Request::Shrink(ptr, old_layout, new_layout)) {
        Some(r) => r,
        None => unreached(),
    }
}

/// Owned-flavour destroy: moves the allocator out of its slot, has it
/// release the storage block it was hosted in, and hands the released
/// value back to the caller, who drops it.
pub fn default_delete<A: Allocator>(arena: &mut Arena<A>, this: usize) -> (released: A)
    requires
        old(arena).wf(),
        old(arena).slot_owned(this as int),
        old(arena)@[this as int].value().can_release(
            old(arena)@[this as int].home().addr,
            A::spec_self_layout(),
        ),
    ensures
        released == old(arena)@[this as int].value().step_deallocate(
            old(arena)@[this as int].home().addr,
            A::spec_self_layout(),
        ),
        released.inv(),
        final(arena)@ == old(arena)@.update(this as int, Slot::Vacant),
        final(arena).wf(),
{
    let (mut a, home) = arena.take_owned(this);
    let layout = A::self_layout();
    a.deallocate(home.addr, layout);
    a
}

/// Owned-flavour duplicate: obtains fresh storage from the allocator
/// behind `this`, installs a value-identical copy of it there, and
/// returns the copy's address. Failure to obtain that storage is fatal
/// rather than recoverable, so the precondition rules it out.
pub fn default_clone<A: DuplicableAllocator>(arena: &mut Arena<A>, this: usize) -> (slot: usize)
    requires
        old(arena).wf(),
        old(arena).slot_occupied(this as int),
        old(arena)@[this as int].value().step_allocate(A::spec_self_layout()).1 is Ok,
    ensures
        ({
            let stepped = old(arena)@[this as int].value().step_allocate(A::spec_self_layout());
            final(arena)@ == old(arena)@.update(
                this as int,
                old(arena)@[this as int].with_value(stepped.0),
            ).push(Slot::Owned(stepped.0, stepped.1->Ok_0))
        }),
        slot == old(arena)@.len(),
        final(arena).wf(),
{
    let layout = A::self_layout();
    let r = allocate(arena, this, layout);
    let home = match r {
        Ok(b) => b,
        Err(_) => unreached(),
    };
    let copy = arena.value_of(this).duplicate();
    arena.install_owned(copy, home)
}

/// Borrowed-flavour destroy: a deliberate no-op, identical for every
/// wrapped type; the referenced allocator stays with its owner.
pub fn ref_delete(_this: usize) {
}

/// Borrowed-flavour duplicate for allocators of type `A`: copies the
/// address only, so the duplicate references the same allocator.
pub fn ref_clone<A: Allocator>(this: usize) -> (r: usize)
    ensures
        r == this,
{
    this
}

} // verus!
