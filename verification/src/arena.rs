//! The arena: an explicit model of the storage that holds wrapped
//! allocator values.
//!
//! A handle's untyped data pointer is modelled as an index into an arena,
//! and dereferencing it is modelled as looking the index up. An `Owned`
//! entry is an allocator hosted in storage that the allocator itself
//! supplied (the entry keeps that block, so tearing the handle down can
//! hand it back); a `Lent` entry is an externally-owned allocator that the
//! caller placed here so that borrowed handles can reference it.

use vstd::prelude::*;

use crate::capability::AllocError;
use crate::capability::Allocator;
use crate::capability::Block;
use crate::capability::Request;
use crate::capability::call_direct;
use crate::capability::req_admitted;
use crate::capability::step_req;

verus! {

/// One address of the arena.
pub enum Slot<A> {
    /// No allocator lives here.
    Vacant,
    /// An allocator hosted by an owning handle, together with the block
    /// of its own storage that it supplied at construction time.
    Owned(A, Block),
    /// An externally-owned allocator that borrowed handles reference.
    Lent(A),
}

impl<A> Slot<A> {
    /// The slot holds an allocator.
    pub open spec fn is_occupied(self) -> bool {
        !(self is Vacant)
    }

    /// The allocator held here.
    pub open spec fn value(self) -> A
        recommends
            self.is_occupied(),
    {
        match self {
            Slot::Vacant => arbitrary(),
            Slot::Owned(a, _) => a,
            Slot::Lent(a) => a,
        }
    }

    /// The self-supplied storage block of an `Owned` slot.
    pub open spec fn home(self) -> Block
        recommends
            self is Owned,
    {
        match self {
            Slot::Owned(_, b) => b,
            _ => arbitrary(),
        }
    }

    /// The same slot with its allocator replaced by `a`.
    pub open spec fn with_value(self, a: A) -> Slot<A> {
        match self {
            Slot::Vacant => Slot::Vacant,
            Slot::Owned(_, b) => Slot::Owned(a, b),
            Slot::Lent(_) => Slot::Lent(a),
        }
    }
}

/// The modelled storage: a growing sequence of slots. Its view is the
/// sequence of slots it holds.
pub struct Arena<A> {
    entries: Vec<Slot<A>>,
}

impl<A> View for Arena<A> {
    type V = Seq<Slot<A>>;

    closed spec fn view(&self) -> Seq<Slot<A>> {
        self.entries@
    }
}

impl<A: Allocator> Arena<A> {
    /// Every allocator held anywhere in the arena is internally
    /// well-formed.
    pub open spec fn wf(self) -> bool {
        forall|i: int|
            0 <= i < self@.len() && (#[trigger] self@[i]).is_occupied() ==> self@[i].value().inv()
    }

    /// The slot exists and holds an allocator.
    pub open spec fn slot_occupied(self, slot: int) -> bool {
        0 <= slot < self@.len() && self@[slot].is_occupied()
    }

    /// The slot exists and hosts an allocator owned by a handle.
    pub open spec fn slot_owned(self, slot: int) -> bool {
        0 <= slot < self@.len() && self@[slot] is Owned
    }

    /// The slot exists and holds an externally-owned allocator.
    pub open spec fn slot_lent(self, slot: int) -> bool {
        0 <= slot < self@.len() && self@[slot] is Lent
    }

    /// An empty arena.
    pub fn new() -> (arena: Arena<A>)
        ensures
            arena@ == Seq::<Slot<A>>::empty(),
            arena.wf(),
    {
        Arena { entries: Vec::new() }
    }

    /// How many slots the arena has.
    pub fn len(&self) -> (n: usize)
        ensures
            n == self@.len(),
    {
        self.entries.len()
    }

    /// Place an externally-owned allocator so that borrowed handles can
    /// reference it; the caller keeps the obligation to reclaim it.
    pub fn lend(&mut self, allocator: A) -> (slot: usize)
        requires
            old(self).wf(),
            allocator.inv(),
        ensures
            final(self)@ == old(self)@.push(Slot::Lent(allocator)),
            slot == old(self)@.len(),
            final(self).wf(),
    {
        let slot = self.entries.len();
        self.entries.push(Slot::Lent(allocator));
        slot
    }

    /// Take a lent allocator back; the slot becomes vacant.
    pub fn reclaim(&mut self, slot: usize) -> (allocator: A)
        requires
            old(self).wf(),
            old(self).slot_lent(slot as int),
        ensures
            allocator == old(self)@[slot as int].value(),
            final(self)@ == old(self)@.update(slot as int, Slot::Vacant),
            final(self).wf(),
    {
        let mut taken = Slot::Vacant;
        core::mem::swap(&mut taken, &mut self.entries[slot]);
        match taken {
            Slot::Lent(a) => a,
            _ => unreached(),
        }
    }

    /// Whether the slot exists and holds nothing.
    pub fn is_vacant(&self, slot: usize) -> (r: bool)
        requires
            slot < self@.len(),
        ensures
            r == !self@[slot as int].is_occupied(),
    {
        match &self.entries[slot] {
            Slot::Vacant => true,
            _ => false,
        }
    }

    /// Read the allocator held at `slot`.
    pub fn value_of(&self, slot: usize) -> (a: &A)
        requires
            self.slot_occupied(slot as int),
        ensures
            *a == self@[slot as int].value(),
    {
        match &self.entries[slot] {
            Slot::Owned(a, _) => a,
            Slot::Lent(a) => a,
            Slot::Vacant => unreached(),
        }
    }

    /// Read the self-supplied storage block of an owned slot.
    pub fn home_of(&self, slot: usize) -> (b: Block)
        requires
            self.slot_owned(slot as int),
        ensures
            b == self@[slot as int].home(),
    {
        match &self.entries[slot] {
            Slot::Owned(_, b) => *b,
            _ => unreached(),
        }
    }

    /// Record an allocator that a handle hosts in the given self-supplied
    /// storage block.
    pub fn install_owned(&mut self, allocator: A, home: Block) -> (slot: usize)
        requires
            old(self).wf(),
            allocator.inv(),
        ensures
            final(self)@ == old(self)@.push(Slot::Owned(allocator, home)),
            slot == old(self)@.len(),
            final(self).wf(),
    {
        let slot = self.entries.len();
        self.entries.push(Slot::Owned(allocator, home));
        slot
    }

    /// Move a hosted allocator and its storage block out; the slot
    /// becomes vacant.
    pub fn take_owned(&mut self, slot: usize) -> (r: (A, Block))
        requires
            old(self).wf(),
            old(self).slot_owned(slot as int),
        ensures
            r.0 == old(self)@[slot as int].value(),
            r.1 == old(self)@[slot as int].home(),
            final(self)@ == old(self)@.update(slot as int, Slot::Vacant),
            final(self).wf(),
    {
        let mut taken = Slot::Vacant;
        core::mem::swap(&mut taken, &mut self.entries[slot]);
        match taken {
            Slot::Owned(a, b) => (a, b),
            _ => unreached(),
        }
    }

    /// Issue one request against the allocator held at `slot`, in place:
    /// the slot keeps its kind, only the allocator state advances.
    pub fn perform(&mut self, slot: usize, req: Request) -> (out: Option<Result<Block, AllocError>>)
        requires
            old(self).wf(),
            old(self).slot_occupied(slot as int),
            req_admitted(old(self)@[slot as int].value(), req),
        ensures
            final(self)@ == old(self)@.update(
                slot as int,
                old(self)@[slot as int].with_value(step_req(old(self)@[slot as int].value(), req).0),
            ),
            out == step_req(old(self)@[slot as int].value(), req).1,
            final(self).wf(),
            crate::capability::out_fits(req, out),
    {
        match &mut self.entries[slot] {
            Slot::Owned(a, _) => call_direct(a, req),
            Slot::Lent(a) => call_direct(a, req),
            Slot::Vacant => None,
        }
    }
}

} // verus!
