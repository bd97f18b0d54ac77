//! The capability set: the contract that every wrapped allocator satisfies
//! and that the erased handle re-exposes to its own callers.
//!
//! A concrete allocator is a value whose observable behaviour is fixed by
//! the `step_*` specification functions of the [`Allocator`] trait: each
//! executable capability method must return exactly the result, and leave
//! exactly the state, that the corresponding `step_*` function gives. This
//! determinism is what makes forwarding through a handle provably
//! indistinguishable from calling the allocator directly.

use vstd::prelude::*;

verus! {

/// A size and alignment request, as plain values.
#[derive(Clone, Copy, PartialEq, Eq, Structural, Debug)]
pub struct Layout {
    /// Requested size in bytes.
    pub size: usize,
    /// Requested alignment in bytes.
    pub align: usize,
}

impl Layout {
    /// A layout is usable when its alignment is positive.
    pub open spec fn wf(self) -> bool {
        self.align >= 1
    }
}

/// A successful allocation result: the address of the block plus its
/// usable size, which may exceed the size that was requested.
#[derive(Clone, Copy, PartialEq, Eq, Structural, Debug)]
pub struct Block {
    /// Address of the first byte of the block.
    pub addr: usize,
    /// Usable size of the block in bytes.
    pub size: usize,
}

impl Block {
    /// The block satisfies `layout`: it is aligned, at least as large as
    /// requested, and lies within the address space.
    pub open spec fn fits(self, layout: Layout) -> bool {
        &&& self.addr % layout.align == 0
        &&& self.size >= layout.size
        &&& self.addr + self.size <= usize::MAX
    }
}

/// The sole error kind of this layer: an allocation or resize request
/// could not be satisfied. It carries no payload.
#[derive(Clone, Copy, PartialEq, Eq, Structural, Debug)]
pub struct AllocError;

/// The capability set that a concrete allocator must offer to be wrapped.
///
/// The `step_*` specification functions pin the allocator's behaviour
/// down: every executable method is required to act exactly as its
/// `step_*` function says, so two calls from equal states with equal
/// arguments give equal results. `inv` is the allocator's own
/// well-formedness predicate; every method preserves it.
pub trait Allocator: Sized {
    /// Well-formedness of the allocator's internal bookkeeping.
    spec fn inv(self) -> bool;

    /// The storage footprint of one allocator value of this type, used
    /// when a handle hosts the allocator in storage drawn from the
    /// allocator itself.
    spec fn spec_self_layout() -> Layout;

    /// State and result of `allocate`.
    spec fn step_allocate(self, layout: Layout) -> (Self, Result<Block, AllocError>);

    /// State and result of `allocate_zeroed`.
    spec fn step_allocate_zeroed(self, layout: Layout) -> (Self, Result<Block, AllocError>);

    /// Whether `ptr` with `layout` denotes storage that this allocator
    /// currently considers released: the caller-upheld fit between a
    /// deallocate/grow/shrink request and a prior successful allocation.
    spec fn can_release(self, ptr: usize, layout: Layout) -> bool;

    /// State after `deallocate`.
    spec fn step_deallocate(self, ptr: usize, layout: Layout) -> Self;

    /// State and result of `grow`.
    spec fn step_grow(self, ptr: usize, old_layout: Layout, new_layout: Layout) -> (Self, Result<Block, AllocError>);

    /// State and result of `grow_zeroed`.
    spec fn step_grow_zeroed(self, ptr: usize, old_layout: Layout, new_layout: Layout) -> (Self, Result<Block, AllocError>);

    /// State and result of `shrink`.
    spec fn step_shrink(self, ptr: usize, old_layout: Layout, new_layout: Layout) -> (Self, Result<Block, AllocError>);

    /// The layout of this allocator type's own storage.
    fn self_layout() -> (l: Layout)
        ensures
            l == Self::spec_self_layout(),
            l.wf(),
    ;

    /// Obtain a block of storage satisfying `layout`.
    fn allocate(&mut self, layout: Layout) -> (r: Result<Block, AllocError>)
        requires
            old(self).inv(),
            layout.wf(),
        ensures
            *final(self) == old(self).step_allocate(layout).0,
            r == old(self).step_allocate(layout).1,
            (*final(self)).inv(),
            r matches Ok(b) ==> b.fits(layout),
    ;

    /// Obtain a block of zeroed storage satisfying `layout`.
    fn allocate_zeroed(&mut self, layout: Layout) -> (r: Result<Block, AllocError>)
        requires
            old(self).inv(),
            layout.wf(),
        ensures
            *final(self) == old(self).step_allocate_zeroed(layout).0,
            r == old(self).step_allocate_zeroed(layout).1,
            (*final(self)).inv(),
            r matches Ok(b) ==> b.fits(layout),
    ;

    /// Return the block at `ptr` with `layout` to the allocator.
    fn deallocate(&mut self, ptr: usize, layout: Layout)
        requires
            old(self).inv(),
            layout.wf(),
            old(self).can_release(ptr, layout),
        ensures
            *final(self) == old(self).step_deallocate(ptr, layout),
            (*final(self)).inv(),
    ;

    /// Enlarge the block at `ptr` from `old_layout` to `new_layout`.
    fn grow(&mut self, ptr: usize, old_layout: Layout, new_layout: Layout) -> (r: Result<Block, AllocError>)
        requires
            old(self).inv(),
            old_layout.wf(),
            new_layout.wf(),
            new_layout.size >= old_layout.size,
            old(self).can_release(ptr, old_layout),
        ensures
            *final(self) == old(self).step_grow(ptr, old_layout, new_layout).0,
            r == old(self).step_grow(ptr, old_layout, new_layout).1,
            (*final(self)).inv(),
            r matches Ok(b) ==> b.fits(new_layout),
    ;

    /// Enlarge the block at `ptr`, zeroing the added bytes.
    fn grow_zeroed(&mut self, ptr: usize, old_layout: Layout, new_layout: Layout) -> (r: Result<Block, AllocError>)
        requires
            old(self).inv(),
            old_layout.wf(),
            new_layout.wf(),
            new_layout.size >= old_layout.size,
            old(self).can_release(ptr, old_layout),
        ensures
            *final(self) == old(self).step_grow_zeroed(ptr, old_layout, new_layout).0,
            r == old(self).step_grow_zeroed(ptr, old_layout, new_layout).1,
            (*final(self)).inv(),
            r matches Ok(b) ==> b.fits(new_layout),
    ;

    /// Reduce the block at `ptr` from `old_layout` to `new_layout`.
    fn shrink(&mut self, ptr: usize, old_layout: Layout, new_layout: Layout) -> (r: Result<Block, AllocError>)
        requires
            old(self).inv(),
            old_layout.wf(),
            new_layout.wf(),
            new_layout.size <= old_layout.size,
            old(self).can_release(ptr, old_layout),
        ensures
            *final(self) == old(self).step_shrink(ptr, old_layout, new_layout).0,
            r == old(self).step_shrink(ptr, old_layout, new_layout).1,
            (*final(self)).inv(),
            r matches Ok(b) ==> b.fits(new_layout),
    ;
}

/// The duplication capability that owned wrapping additionally needs: a
/// value-identical copy of the allocator.
pub trait DuplicableAllocator: Allocator {
    /// Produce a copy that is equal, as a value, to `self`.
    fn duplicate(&self) -> (r: Self)
        requires
            self.inv(),
        ensures
            r == *self,
    ;
}

/// One capability-set call, as plain data. A sequence of these describes
/// a whole conversation with an allocator.
#[derive(Clone, Copy, PartialEq, Eq, Structural, Debug)]
pub enum Request {
    /// `allocate(layout)`.
    Allocate(Layout),
    /// `allocate_zeroed(layout)`.
    AllocateZeroed(Layout),
    /// `deallocate(ptr, layout)`.
    Deallocate(usize, Layout),
    /// `grow(ptr, old_layout, new_layout)`.
    Grow(usize, Layout, Layout),
    /// `grow_zeroed(ptr, old_layout, new_layout)`.
    GrowZeroed(usize, Layout, Layout),
    /// `shrink(ptr, old_layout, new_layout)`.
    Shrink(usize, Layout, Layout),
}

/// Whether one request may be issued against allocator state `a`: the
/// preconditions of the corresponding capability method.
pub open spec fn req_admitted<A: Allocator>(a: A, req: Request) -> bool {
    match req {
        Request::Allocate(l) => l.wf(),
        Request::AllocateZeroed(l) => l.wf(),
        Request::Deallocate(p, l) => l.wf() && a.can_release(p, l),
        Request::Grow(p, ol, nl) => ol.wf() && nl.wf() && nl.size >= ol.size && a.can_release(p, ol),
        Request::GrowZeroed(p, ol, nl) => ol.wf() && nl.wf() && nl.size >= ol.size && a.can_release(p, ol),
        Request::Shrink(p, ol, nl) => ol.wf() && nl.wf() && nl.size <= ol.size && a.can_release(p, ol),
    }
}

/// The direct-call meaning of one request: the allocator's next state and
/// the outcome handed to the caller. `deallocate` returns nothing, so its
/// outcome is `None`.
pub open spec fn step_req<A: Allocator>(a: A, req: Request) -> (A, Option<Result<Block, AllocError>>) {
    match req {
        Request::Allocate(l) => (a.step_allocate(l).0, Some(a.step_allocate(l).1)),
        Request::AllocateZeroed(l) => (a.step_allocate_zeroed(l).0, Some(a.step_allocate_zeroed(l).1)),
        Request::Deallocate(p, l) => (a.step_deallocate(p, l), None),
        Request::Grow(p, ol, nl) => (a.step_grow(p, ol, nl).0, Some(a.step_grow(p, ol, nl).1)),
        Request::GrowZeroed(p, ol, nl) => (a.step_grow_zeroed(p, ol, nl).0, Some(a.step_grow_zeroed(p, ol, nl).1)),
        Request::Shrink(p, ol, nl) => (a.step_shrink(p, ol, nl).0, Some(a.step_shrink(p, ol, nl).1)),
    }
}

/// Any block in the outcome of a request satisfies the layout that the
/// request asked for.
pub open spec fn out_fits(req: Request, out: Option<Result<Block, AllocError>>) -> bool {
    match (req, out) {
        (Request::Allocate(l), Some(Ok(b))) => b.fits(l),
        (Request::AllocateZeroed(l), Some(Ok(b))) => b.fits(l),
        (Request::Grow(_, _, nl), Some(Ok(b))) => b.fits(nl),
        (Request::GrowZeroed(_, _, nl), Some(Ok(b))) => b.fits(nl),
        (Request::Shrink(_, _, nl), Some(Ok(b))) => b.fits(nl),
        _ => true,
    }
}

/// Issue one request directly against a concrete allocator, with no
/// handle in between.
pub fn call_direct<A: Allocator>(a: &mut A, req: Request) -> (out: Option<Result<Block, AllocError>>)
    requires
        old(a).inv(),
        req_admitted(*old(a), req),
    ensures
        *final(a) == step_req(*old(a), req).0,
        out == step_req(*old(a), req).1,
        (*final(a)).inv(),
        out_fits(req, out),
{
    match req {
        Request::Allocate(l) => Some(a.allocate(l)),
        Request::AllocateZeroed(l) => Some(a.allocate_zeroed(l)),
        Request::Deallocate(p, l) => {
            a.deallocate(p, l);
            None
        },
        Request::Grow(p, ol, nl) => Some(a.grow(p, ol, nl)),
        Request::GrowZeroed(p, ol, nl) => Some(a.grow_zeroed(p, ol, nl)),
        Request::Shrink(p, ol, nl) => Some(a.shrink(p, ol, nl)),
    }
}

/// Whether a whole sequence of requests is admissible, each one at the
/// state the ones before it leave behind.
pub open spec fn reqs_admitted<A: Allocator>(a: A, reqs: Seq<Request>) -> bool
    decreases reqs.len(),
{
    reqs.len() == 0 || (req_admitted(a, reqs[0]) && reqs_admitted(
        step_req(a, reqs[0]).0,
        reqs.drop_first(),
    ))
}

/// The final state and the outcomes, in order, of a sequence of direct
/// calls against a concrete allocator.
pub open spec fn run_reqs<A: Allocator>(a: A, reqs: Seq<Request>) -> (
    A,
    Seq<Option<Result<Block, AllocError>>>,
)
    decreases reqs.len(),
{
    if reqs.len() == 0 {
        (a, Seq::empty())
    } else {
        let head = step_req(a, reqs[0]);
        let rest = run_reqs(head.0, reqs.drop_first());
        (rest.0, seq![head.1] + rest.1)
    }
}

/// Issue a whole sequence of requests directly against a concrete
/// allocator, collecting the outcomes in order.
pub fn replay_direct<A: Allocator>(a: &mut A, reqs: &Vec<Request>) -> (outs: Vec<
    Option<Result<Block, AllocError>>,
>)
    requires
        old(a).inv(),
        reqs_admitted(*old(a), reqs@),
    ensures
        *final(a) == run_reqs(*old(a), reqs@).0,
        outs@ == run_reqs(*old(a), reqs@).1,
        (*final(a)).inv(),
{
    let ghost a0 = *a;
    let ghost all = reqs@;
    let mut outs: Vec<Option<Result<Block, AllocError>>> = Vec::new();
    let mut i: usize = 0;
    proof {
        assert(all.subrange(0, all.len() as int) =~= all);
        assert(outs@ + run_reqs(*a, all).1 =~= run_reqs(a0, all).1);
    }
    while i < reqs.len()
        invariant
            i <= reqs.len(),
            all == reqs@,
            a.inv(),
            reqs_admitted(*a, all.subrange(i as int, all.len() as int)),
            run_reqs(a0, all).0 == run_reqs(*a, all.subrange(i as int, all.len() as int)).0,
            run_reqs(a0, all).1 == outs@ + run_reqs(*a, all.subrange(i as int, all.len() as int)).1,
        decreases reqs.len() - i,
    {
        let ghost suffix = all.subrange(i as int, all.len() as int);
        proof {
            assert(suffix[0] == all[i as int]);
            assert(suffix.drop_first() =~= all.subrange(i as int + 1, all.len() as int));
        }
        let ghost pre = *a;
        let ghost outs_pre = outs@;
        let req = reqs[i];
        let out = call_direct(a, req);
        outs.push(out);
        i = i + 1;
        proof {
            assert(outs@ =~= outs_pre.push(out));
            assert(run_reqs(pre, suffix).1 == seq![out] + run_reqs(
                *a,
                all.subrange(i as int, all.len() as int),
            ).1);
            assert(outs_pre + run_reqs(pre, suffix).1 =~= outs@ + run_reqs(
                *a,
                all.subrange(i as int, all.len() as int),
            ).1);
        }
    }
    proof {
        assert(all.subrange(all.len() as int, all.len() as int) =~= Seq::<Request>::empty());
        assert(outs@ + Seq::<Option<Result<Block, AllocError>>>::empty() =~= outs@);
    }
    outs
}

} // verus!
