//! The erased handle: a compact value that exposes the capability set
//! while hiding the concrete allocator type behind an address and a
//! dispatch table.
//!
//! A handle is two plain fields, whatever the wrapped type's own size.
//! Every capability call forwards, unchanged in arguments and result,
//! through the table to the allocator behind the address; the handle
//! itself holds no mutable bookkeeping, so all effects land inside the
//! wrapped allocator.

use core::marker::PhantomData;
use vstd::prelude::*;

use crate::arena::Arena;
use crate::arena::Slot;
use crate::capability::AllocError;
use crate::capability::Allocator;
use crate::capability::Block;
use crate::capability::DuplicableAllocator;
use crate::capability::Layout;
use crate::capability::Request;
use crate::capability::reqs_admitted;
use crate::capability::run_reqs;
use crate::traits::LocalTrait;
use crate::traits::SendSyncTrait;
use crate::traits::SendTrait;
use crate::vtable::OwnershipMode;
use crate::vtable::RawPolyAllocVTable;
use crate::vtable::spec_dispatch;

verus! {

/// A polymorphic allocator handle.
///
/// `Traits` is the thread-safety variant chosen at construction time; it
/// does not change the representation. The fields are public so that
/// contracts can speak about them, but the only way to obtain a handle
/// that satisfies the provenance invariant [`PolyAllocator::wf`] is
/// through the constructors (or through `from_raw_parts` with a pair
/// that came out of `into_raw_parts`).
pub struct PolyAllocator<A, Traits> {
    /// The erased address of the wrapped allocator: an index into the
    /// arena that models the storage behind the handle. For owned
    /// handles, the storage behind this address was supplied by the
    /// wrapped allocator itself.
    pub data: usize,
    /// The dispatch table the handle was constructed with.
    pub vtable: RawPolyAllocVTable,
    /// The handle stands for an allocator of type `A`.
    pub _ph: PhantomData<A>,
    /// The thread-safety variant marker.
    pub _traits: PhantomData<Traits>,
}

/// What a successful owned construction leaves behind: the allocator,
/// advanced by the allocation of its own storage, is hosted in a fresh
/// slot together with the block it supplied, and the handle's address is
/// that slot.
pub open spec fn owned_construction<A: Allocator, Traits>(
    allocator: A,
    pre: Seq<Slot<A>>,
    post: Seq<Slot<A>>,
    h: PolyAllocator<A, Traits>,
) -> bool {
    let stepped = allocator.step_allocate(A::spec_self_layout());
    &&& post == pre.push(Slot::Owned(stepped.0, stepped.1->Ok_0))
    &&& h.data == pre.len()
    &&& h.vtable.mode == OwnershipMode::Owned
}

impl<A: Allocator, Traits> PolyAllocator<A, Traits> {
    /// The provenance invariant: the handle's address and table are a
    /// matching pair. The address holds an allocator of type `A`, held
    /// the way the table's mode says; this pairing is established at
    /// construction and must never be forged or rebound.
    pub open spec fn wf(self, arena: Arena<A>) -> bool {
        &&& self.data < arena@.len()
        &&& (self.vtable.mode == OwnershipMode::Owned <==> arena.slot_owned(self.data as int))
        &&& (self.vtable.mode == OwnershipMode::Borrowed <==> arena.slot_lent(self.data as int))
    }

    /// The current state of the wrapped allocator.
    pub open spec fn value_in(self, arena: Arena<A>) -> A {
        arena@[self.data as int].value()
    }

    /// Reassemble a handle from its raw representation. The pair must be
    /// provenance-valid — taken apart by `into_raw_parts` and reassembled
    /// against the same arena; every later call demands that validity
    /// through its `wf` precondition.
    pub fn from_raw_parts(data: usize, vtable: RawPolyAllocVTable) -> (h: Self)
        ensures
            h.data == data,
            h.vtable == vtable,
    {
        PolyAllocator { data, vtable, _ph: PhantomData, _traits: PhantomData }
    }

    /// Take the handle apart into its raw representation, for transport
    /// across an opaque boundary.
    pub fn into_raw_parts(self) -> (parts: (usize, RawPolyAllocVTable))
        ensures
            parts.0 == self.data,
            parts.1 == self.vtable,
    {
        (self.data, self.vtable)
    }

    /// Construct a handle by placing an allocator in its own storage:
    /// the storage is obtained from the allocator itself, sized for one
    /// value of type `A`. On failure nothing is changed and the failure
    /// is returned.
    fn try_owned_internal(allocator: A, arena: &mut Arena<A>) -> (r: Result<Self, AllocError>) where
        A: DuplicableAllocator,

        requires
            old(arena).wf(),
            allocator.inv(),
        ensures
            final(arena).wf(),
            r is Ok <==> allocator.step_allocate(A::spec_self_layout()).1 is Ok,
            r is Err ==> final(arena)@ == old(arena)@,
            r is Ok ==> owned_construction(allocator, old(arena)@, final(arena)@, r->Ok_0)
                && r->Ok_0.wf(*final(arena)),
    {
        let layout = A::self_layout();
        let mut a = allocator;
        match a.allocate(layout) {
            Err(e) => Err(e),
            Ok(home) => {
                let slot = arena.install_owned(a, home);
                Ok(
                    PolyAllocator {
                        data: slot,
                        vtable: RawPolyAllocVTable::owned::<A>(),
                        _ph: PhantomData,
                        _traits: PhantomData,
                    },
                )
            },
        }
    }

    /// Construct a handle by placing an allocator in its own storage.
    /// Failure to obtain that storage is fatal rather than recoverable,
    /// so the precondition rules it out.
    fn owned_internal(allocator: A, arena: &mut Arena<A>) -> (h: Self) where A: DuplicableAllocator
        requires
            old(arena).wf(),
            allocator.inv(),
            allocator.step_allocate(A::spec_self_layout()).1 is Ok,
        ensures
            final(arena).wf(),
            owned_construction(allocator, old(arena)@, final(arena)@, h),
            h.wf(*final(arena)),
    {
        match Self::try_owned_internal(allocator, arena) {
            Ok(h) => h,
            Err(_) => unreached(),
        }
    }

    /// Construct a handle that borrows an externally-owned allocator: the
    /// one the caller lent to the arena at `slot`. Never fails; the
    /// caller keeps the referent alive for as long as handles reference
    /// it.
    fn borrowed_internal(slot: usize, arena: &Arena<A>) -> (h: Self)
        requires
            arena.slot_lent(slot as int),
        ensures
            h.data == slot,
            h.vtable.mode == OwnershipMode::Borrowed,
            h.wf(*arena),
    {
        PolyAllocator {
            data: slot,
            vtable: RawPolyAllocVTable::borrowed::<A>(),
            _ph: PhantomData,
            _traits: PhantomData,
        }
    }

    /// Allocate through the handle: forwards unchanged through the table.
    pub fn allocate(&self, arena: &mut Arena<A>, layout: Layout) -> (r: Result<Block, AllocError>)
        requires
            old(arena).wf(),
            self.wf(*old(arena)),
            layout.wf(),
        ensures
            final(arena)@ == spec_dispatch(old(arena)@, self.data as int, Request::Allocate(layout)).0,
            Some(r) == spec_dispatch(old(arena)@, self.data as int, Request::Allocate(layout)).1,
            final(arena).wf(),
            self.wf(*final(arena)),
            r matches Ok(b) ==> b.fits(layout),
    {
        crate::vtable::allocate(arena, self.data, layout)
    }

    /// Allocate zeroed storage through the handle.
    pub fn allocate_zeroed(&self, arena: &mut Arena<A>, layout: Layout) -> (r: Result<
        Block,
        AllocError,
    >)
        requires
            old(arena).wf(),
            self.wf(*old(arena)),
            layout.wf(),
        ensures
            final(arena)@ == spec_dispatch(
                old(arena)@,
                self.data as int,
                Request::AllocateZeroed(layout),
            ).0,
            Some(r) == spec_dispatch(old(arena)@, self.data as int, Request::AllocateZeroed(layout)).1,
            final(arena).wf(),
            self.wf(*final(arena)),
            r matches Ok(b) ==> b.fits(layout),
    {
        crate::vtable::allocate_zeroed(arena, self.data, layout)
    }

    /// Deallocate through the handle. `ptr` and `layout` must fit a prior
    /// successful allocation from this same handle (or one sharing its
    /// referent), which is what `can_release` records.
    pub fn deallocate(&self, arena: &mut Arena<A>, ptr: usize, layout: Layout)
        requires
            old(arena).wf(),
            self.wf(*old(arena)),
            layout.wf(),
            self.value_in(*old(arena)).can_release(ptr, layout),
        ensures
            final(arena)@ == spec_dispatch(
                old(arena)@,
                self.data as int,
                Request::Deallocate(ptr, layout),
            ).0,
            final(arena).wf(),
            self.wf(*final(arena)),
    {
        crate::vtable::deallocate(arena, self.data, ptr, layout)
    }

    /// Grow a block through the handle.
    pub fn grow(&self, arena: &mut Arena<A>, ptr: usize, old_layout: Layout, new_layout: Layout) -> (r:
        Result<Block, AllocError>)
        requires
            old(arena).wf(),
            self.wf(*old(arena)),
            old_layout.wf(),
            new_layout.wf(),
            new_layout.size >= old_layout.size,
            self.value_in(*old(arena)).can_release(ptr, old_layout),
        ensures
            final(arena)@ == spec_dispatch(
                old(arena)@,
                self.data as int,
                Request::Grow(ptr, old_layout, new_layout),
            ).0,
            Some(r) == spec_dispatch(
                old(arena)@,
                self.data as int,
                Request::Grow(ptr, old_layout, new_layout),
            ).1,
            final(arena).wf(),
            self.wf(*final(arena)),
            r matches Ok(b) ==> b.fits(new_layout),
    {
        crate::vtable::grow(arena, self.data, ptr, old_layout, new_layout)
    }

    /// Grow a block through the handle, zeroing the added bytes.
    pub fn grow_zeroed(
        &self,
        arena: &mut Arena<A>,
        ptr: usize,
        old_layout: Layout,
        new_layout: Layout,
    ) -> (r: Result<Block, AllocError>)
        requires
            old(arena).wf(),
            self.wf(*old(arena)),
            old_layout.wf(),
            new_layout.wf(),
            new_layout.size >= old_layout.size,
            self.value_in(*old(arena)).can_release(ptr, old_layout),
        ensures
            final(arena)@ == spec_dispatch(
                old(arena)@,
                self.data as int,
                Request::GrowZeroed(ptr, old_layout, new_layout),
            ).0,
            Some(r) == spec_dispatch(
                old(arena)@,
                self.data as int,
                Request::GrowZeroed(ptr, old_layout, new_layout),
            ).1,
            final(arena).wf(),
            self.wf(*final(arena)),
            r matches Ok(b) ==> b.fits(new_layout),
    {
        crate::vtable::grow_zeroed(arena, self.data, ptr, old_layout, new_layout)
    }

    /// Shrink a block through the handle.
    pub fn shrink(&self, arena: &mut Arena<A>, ptr: usize, old_layout: Layout, new_layout: Layout) -> (r:
        Result<Block, AllocError>)
        requires
            old(arena).wf(),
            self.wf(*old(arena)),
            old_layout.wf(),
            new_layout.wf(),
            new_layout.size <= old_layout.size,
            self.value_in(*old(arena)).can_release(ptr, old_layout),
        ensures
            final(arena)@ == spec_dispatch(
                old(arena)@,
                self.data as int,
                Request::Shrink(ptr, old_layout, new_layout),
            ).0,
            Some(r) == spec_dispatch(
                old(arena)@,
                self.data as int,
                Request::Shrink(ptr, old_layout, new_layout),
            ).1,
            final(arena).wf(),
            self.wf(*final(arena)),
            r matches Ok(b) ==> b.fits(new_layout),
    {
        crate::vtable::shrink(arena, self.data, ptr, old_layout, new_layout)
    }

    /// Tear the handle down: the table's destroy runs exactly once for
    /// this handle. For an owned handle the wrapped allocator is moved
    /// out of its storage, releases that storage itself, and is handed
    /// back to the caller, who drops it; for a borrowed handle nothing
    /// happens at all.
    /// Issue one capability request through the handle: forwards
    /// unchanged through the table, whichever request it is.
    pub fn call(&self, arena: &mut Arena<A>, req: Request) -> (out: Option<
        Result<Block, AllocError>,
    >)
        requires
            old(arena).wf(),
            self.wf(*old(arena)),
            crate::capability::req_admitted(self.value_in(*old(arena)), req),
        ensures
            final(arena)@ == spec_dispatch(old(arena)@, self.data as int, req).0,
            out == spec_dispatch(old(arena)@, self.data as int, req).1,
            final(arena).wf(),
            self.wf(*final(arena)),
            crate::capability::out_fits(req, out),
    {
        match req {
            Request::Allocate(l) => Some(self.allocate(arena, l)),
            Request::AllocateZeroed(l) => Some(self.allocate_zeroed(arena, l)),
            Request::Deallocate(p, l) => {
                self.deallocate(arena, p, l);
                None
            },
            Request::Grow(p, ol, nl) => Some(self.grow(arena, p, ol, nl)),
            Request::GrowZeroed(p, ol, nl) => Some(self.grow_zeroed(arena, p, ol, nl)),
            Request::Shrink(p, ol, nl) => Some(self.shrink(arena, p, ol, nl)),
        }
    }

    /// Issue a whole sequence of requests through the handle, collecting
    /// the outcomes in order. The outcomes, and the wrapped allocator's
    /// final state, are exactly those of the same sequence of direct
    /// calls against the wrapped allocator; no other slot is touched.
    pub fn replay(&self, arena: &mut Arena<A>, reqs: &Vec<Request>) -> (outs: Vec<
        Option<Result<Block, AllocError>>,
    >)
        requires
            old(arena).wf(),
            self.wf(*old(arena)),
            crate::capability::reqs_admitted(self.value_in(*old(arena)), reqs@),
        ensures
            final(arena)@ == old(arena)@.update(
                self.data as int,
                old(arena)@[self.data as int].with_value(
                    crate::capability::run_reqs(self.value_in(*old(arena)), reqs@).0,
                ),
            ),
            outs@ == crate::capability::run_reqs(self.value_in(*old(arena)), reqs@).1,
            final(arena).wf(),
            self.wf(*final(arena)),
    {
        let ghost entries0 = arena@;
        let ghost this = self.data as int;
        let ghost v0 = self.value_in(*arena);
        let ghost all = reqs@;
        let mut outs: Vec<Option<Result<Block, AllocError>>> = Vec::new();
        let mut i: usize = 0;
        proof {
            assert(all.subrange(0, all.len() as int) =~= all);
            assert(outs@ + run_reqs(v0, all).1 =~= run_reqs(v0, all).1);
            assert(entries0[this].with_value(v0) == entries0[this]);
            assert(entries0.update(this, entries0[this].with_value(v0)) =~= entries0);
        }
        while i < reqs.len()
            invariant
                i <= reqs.len(),
                all == reqs@,
                this == self.data as int,
                arena.wf(),
                self.wf(*arena),
                arena@.len() == entries0.len(),
                0 <= this < entries0.len(),
                entries0[this].is_occupied(),
                reqs_admitted(
                    self.value_in(*arena),
                    all.subrange(i as int, all.len() as int),
                ),
                run_reqs(v0, all).0 == run_reqs(
                    self.value_in(*arena),
                    all.subrange(i as int, all.len() as int),
                ).0,
                run_reqs(v0, all).1 == outs@ + run_reqs(
                    self.value_in(*arena),
                    all.subrange(i as int, all.len() as int),
                ).1,
                arena@ == entries0.update(this, entries0[this].with_value(self.value_in(*arena))),
            decreases reqs.len() - i,
        {
            let ghost suffix = all.subrange(i as int, all.len() as int);
            proof {
                assert(suffix[0] == all[i as int]);
                assert(suffix.drop_first() =~= all.subrange(i as int + 1, all.len() as int));
            }
            let ghost pre = self.value_in(*arena);
            let ghost entries_pre = arena@;
            let ghost outs_pre = outs@;
            let req = reqs[i];
            let out = self.call(arena, req);
            outs.push(out);
            i = i + 1;
            proof {
                let stepped = crate::capability::step_req(pre, req);
                assert(arena@ == entries_pre.update(this, entries_pre[this].with_value(stepped.0)));
                assert(entries_pre[this].with_value(stepped.0) == entries0[this].with_value(
                    stepped.0,
                ));
                assert(arena@ =~= entries0.update(this, entries0[this].with_value(stepped.0)));
                assert(outs@ =~= outs_pre.push(out));
                assert(run_reqs(pre, suffix).1 == seq![out] + run_reqs(
                    self.value_in(*arena),
                    all.subrange(i as int, all.len() as int),
                ).1);
                assert(outs_pre + run_reqs(pre, suffix).1 =~= outs@ + run_reqs(
                    self.value_in(*arena),
                    all.subrange(i as int, all.len() as int),
                ).1);
            }
        }
        proof {
            assert(all.subrange(all.len() as int, all.len() as int) =~= Seq::<Request>::empty());
            assert(outs@ + Seq::<Option<Result<Block, AllocError>>>::empty() =~= outs@);
        }
        outs
    }

    pub fn destroy(self, arena: &mut Arena<A>) -> (released: Option<A>)
        requires
            old(arena).wf(),
            self.wf(*old(arena)),
            self.vtable.mode == OwnershipMode::Owned ==> self.value_in(*old(arena)).can_release(
                old(arena)@[self.data as int].home().addr,
                A::spec_self_layout(),
            ),
        ensures
            final(arena).wf(),
            self.vtable.mode == OwnershipMode::Borrowed ==> final(arena)@ == old(arena)@
                && released is None,
            self.vtable.mode == OwnershipMode::Owned ==> final(arena)@ == old(arena)@.update(
                self.data as int,
                Slot::Vacant,
            ) && released == Some(
                self.value_in(*old(arena)).step_deallocate(
                    old(arena)@[self.data as int].home().addr,
                    A::spec_self_layout(),
                ),
            ),
    {
        match self.vtable.mode {
            OwnershipMode::Owned => Some(crate::vtable::default_delete(arena, self.data)),
            OwnershipMode::Borrowed => {
                crate::vtable::ref_delete(self.data);
                None
            },
        }
    }
}

impl<A: DuplicableAllocator, Traits> PolyAllocator<A, Traits> {
    /// Duplicate the handle through the table. An owned handle gets a
    /// deep copy: a value-identical allocator in fresh storage obtained
    /// from the source allocator. A borrowed handle gets a copy of the address
    /// only: both handles then reference the one shared allocator.
    /// For an owned handle, failure to obtain the copy's storage is
    /// fatal rather than recoverable, so the precondition rules it out.
    pub fn duplicate(&self, arena: &mut Arena<A>) -> (h: Self)
        requires
            old(arena).wf(),
            self.wf(*old(arena)),
            self.vtable.mode == OwnershipMode::Owned ==> self.value_in(*old(arena)).step_allocate(
                A::spec_self_layout(),
            ).1 is Ok,
        ensures
            final(arena).wf(),
            h.vtable == self.vtable,
            h.wf(*final(arena)),
            self.wf(*final(arena)),
            self.vtable.mode == OwnershipMode::Borrowed ==> final(arena)@ == old(arena)@ && h.data
                == self.data,
            self.vtable.mode == OwnershipMode::Owned ==> h.data == old(arena)@.len() && ({
                let stepped = self.value_in(*old(arena)).step_allocate(A::spec_self_layout());
                final(arena)@ == old(arena)@.update(
                    self.data as int,
                    old(arena)@[self.data as int].with_value(stepped.0),
                ).push(Slot::Owned(stepped.0, stepped.1->Ok_0))
            }),
    {
        match self.vtable.mode {
            OwnershipMode::Owned => {
                let slot = crate::vtable::default_clone(arena, self.data);
                PolyAllocator {
                    data: slot,
                    vtable: self.vtable,
                    _ph: PhantomData,
                    _traits: PhantomData,
                }
            },
            OwnershipMode::Borrowed => {
                let d = crate::vtable::ref_clone::<A>(self.data);
                PolyAllocator { data: d, vtable: self.vtable, _ph: PhantomData, _traits: PhantomData }
            },
        }
    }
}

impl<A: DuplicableAllocator> PolyAllocator<A, LocalTrait> {
    /// Construct a handle owning `allocator`, hosted in storage from the
    /// allocator itself; returns the failure if that storage cannot be
    /// obtained.
    pub fn try_owned(allocator: A, arena: &mut Arena<A>) -> (r: Result<Self, AllocError>)
        requires
            old(arena).wf(),
            allocator.inv(),
        ensures
            final(arena).wf(),
            r is Ok <==> allocator.step_allocate(A::spec_self_layout()).1 is Ok,
            r is Err ==> final(arena)@ == old(arena)@,
            r is Ok ==> owned_construction(allocator, old(arena)@, final(arena)@, r->Ok_0)
                && r->Ok_0.wf(*final(arena)),
    {
        Self::try_owned_internal(allocator, arena)
    }

    /// Construct a handle owning `allocator`; failure to obtain its
    /// storage is fatal, so the precondition rules it out.
    pub fn owned(allocator: A, arena: &mut Arena<A>) -> (h: Self)
        requires
            old(arena).wf(),
            allocator.inv(),
            allocator.step_allocate(A::spec_self_layout()).1 is Ok,
        ensures
            final(arena).wf(),
            owned_construction(allocator, old(arena)@, final(arena)@, h),
            h.wf(*final(arena)),
    {
        Self::owned_internal(allocator, arena)
    }
}

impl<A: Allocator> PolyAllocator<A, LocalTrait> {
    /// Construct a handle borrowing the externally-owned allocator lent
    /// to the arena at `slot`.
    pub fn borrowed(slot: usize, arena: &Arena<A>) -> (h: Self)
        requires
            arena.slot_lent(slot as int),
        ensures
            h.data == slot,
            h.vtable.mode == OwnershipMode::Borrowed,
            h.wf(*arena),
    {
        Self::borrowed_internal(slot, arena)
    }
}

impl<A: DuplicableAllocator + Send> PolyAllocator<A, SendTrait> {
    /// Construct a handle owning `allocator`, hosted in storage from the
    /// allocator itself; returns the failure if that storage cannot be
    /// obtained.
    pub fn try_owned(allocator: A, arena: &mut Arena<A>) -> (r: Result<Self, AllocError>)
        requires
            old(arena).wf(),
            allocator.inv(),
        ensures
            final(arena).wf(),
            r is Ok <==> allocator.step_allocate(A::spec_self_layout()).1 is Ok,
            r is Err ==> final(arena)@ == old(arena)@,
            r is Ok ==> owned_construction(allocator, old(arena)@, final(arena)@, r->Ok_0)
                && r->Ok_0.wf(*final(arena)),
    {
        Self::try_owned_internal(allocator, arena)
    }

    /// Construct a handle owning `allocator`; failure to obtain its
    /// storage is fatal, so the precondition rules it out.
    pub fn owned(allocator: A, arena: &mut Arena<A>) -> (h: Self)
        requires
            old(arena).wf(),
            allocator.inv(),
            allocator.step_allocate(A::spec_self_layout()).1 is Ok,
        ensures
            final(arena).wf(),
            owned_construction(allocator, old(arena)@, final(arena)@, h),
            h.wf(*final(arena)),
    {
        Self::owned_internal(allocator, arena)
    }
}

impl<A: Allocator + Sync> PolyAllocator<A, SendTrait> {
    /// Construct a handle borrowing the externally-owned allocator lent
    /// to the arena at `slot`.
    pub fn borrowed(slot: usize, arena: &Arena<A>) -> (h: Self)
        requires
            arena.slot_lent(slot as int),
        ensures
            h.data == slot,
            h.vtable.mode == OwnershipMode::Borrowed,
            h.wf(*arena),
    {
        Self::borrowed_internal(slot, arena)
    }
}

impl<A: DuplicableAllocator + Send + Sync> PolyAllocator<A, SendSyncTrait> {
    /// Construct a handle owning `allocator`, hosted in storage from the
    /// allocator itself; returns the failure if that storage cannot be
    /// obtained.
    pub fn try_owned(allocator: A, arena: &mut Arena<A>) -> (r: Result<Self, AllocError>)
        requires
            old(arena).wf(),
            allocator.inv(),
        ensures
            final(arena).wf(),
            r is Ok <==> allocator.step_allocate(A::spec_self_layout()).1 is Ok,
            r is Err ==> final(arena)@ == old(arena)@,
            r is Ok ==> owned_construction(allocator, old(arena)@, final(arena)@, r->Ok_0)
                && r->Ok_0.wf(*final(arena)),
    {
        Self::try_owned_internal(allocator, arena)
    }

    /// Construct a handle owning `allocator`; failure to obtain its
    /// storage is fatal, so the precondition rules it out.
    pub fn owned(allocator: A, arena: &mut Arena<A>) -> (h: Self)
        requires
            old(arena).wf(),
            allocator.inv(),
            allocator.step_allocate(A::spec_self_layout()).1 is Ok,
        ensures
            final(arena).wf(),
            owned_construction(allocator, old(arena)@, final(arena)@, h),
            h.wf(*final(arena)),
    {
        Self::owned_internal(allocator, arena)
    }
}

impl<A: Allocator + Sync> PolyAllocator<A, SendSyncTrait> {
    /// Construct a handle borrowing the externally-owned allocator lent
    /// to the arena at `slot`.
    pub fn borrowed(slot: usize, arena: &Arena<A>) -> (h: Self)
        requires
            arena.slot_lent(slot as int),
        ensures
            h.data == slot,
            h.vtable.mode == OwnershipMode::Borrowed,
            h.wf(*arena),
    {
        Self::borrowed_internal(slot, arena)
    }
}

} // verus!
