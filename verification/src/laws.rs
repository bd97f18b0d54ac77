//! The stated laws of the erasure layer, proved once for every wrapped
//! allocator type.

use vstd::prelude::*;

use crate::allocator::PolyAllocator;
use crate::arena::Slot;
use crate::capability::AllocError;
use crate::capability::Allocator;
use crate::capability::Block;
use crate::capability::Request;
use crate::capability::run_reqs;
use crate::vtable::spec_dispatch;

verus! {

/// The arena contents and the outcomes, in order, after a sequence of
/// capability calls all forwarded through a table bound to `this`.
pub open spec fn dispatch_run<A: Allocator>(
    entries: Seq<Slot<A>>,
    this: int,
    reqs: Seq<Request>,
) -> (Seq<Slot<A>>, Seq<Option<Result<Block, AllocError>>>)
    decreases reqs.len(),
{
    if reqs.len() == 0 {
        (entries, Seq::empty())
    } else {
        let head = spec_dispatch(entries, this, reqs[0]);
        let rest = dispatch_run(head.0, this, reqs.drop_first());
        (rest.0, seq![head.1] + rest.1)
    }
}

/// Round-trip identity: whatever sequence of capability calls is made,
/// the outcomes seen through a handle are exactly the outcomes of the
/// same calls made directly against the wrapped allocator, and the
/// wrapped allocator ends in exactly the state the direct calls leave
/// behind, with every other slot untouched.
pub proof fn round_trip_identity<A: Allocator>(
    entries: Seq<Slot<A>>,
    this: int,
    reqs: Seq<Request>,
)
    requires
        0 <= this < entries.len(),
        entries[this].is_occupied(),
    ensures
        dispatch_run(entries, this, reqs).1 == run_reqs(entries[this].value(), reqs).1,
        dispatch_run(entries, this, reqs).0 == entries.update(
            this,
            entries[this].with_value(run_reqs(entries[this].value(), reqs).0),
        ),
    decreases reqs.len(),
{
    if reqs.len() == 0 {
        assert(entries[this].with_value(entries[this].value()) == entries[this]);
        assert(entries.update(this, entries[this]) =~= entries);
    } else {
        let head = spec_dispatch(entries, this, reqs[0]);
        round_trip_identity(head.0, this, reqs.drop_first());
        let direct = run_reqs(entries[this].value(), reqs);
        assert(head.0[this].value() == crate::capability::step_req(
            entries[this].value(),
            reqs[0],
        ).0);
        assert(head.0[this].with_value(direct.0) == entries[this].with_value(direct.0));
        assert(dispatch_run(entries, this, reqs).0 =~= entries.update(
            this,
            entries[this].with_value(direct.0),
        ));
    }
}

/// Owned duplication independence: capability calls forwarded to one
/// slot leave every other slot exactly as it was — and duplicating an
/// owned handle always yields a handle on a fresh slot, so calls through
/// the duplicate cannot disturb the source, nor the source the
/// duplicate.
pub proof fn duplication_independence<A: Allocator>(
    entries: Seq<Slot<A>>,
    this: int,
    other: int,
    reqs: Seq<Request>,
)
    requires
        0 <= this < entries.len(),
        entries[this].is_occupied(),
        0 <= other < entries.len(),
        other != this,
    ensures
        dispatch_run(entries, this, reqs).0[other] == entries[other],
{
    round_trip_identity(entries, this, reqs);
}

/// Owned destruction independence: vacating one slot leaves every other
/// slot exactly as it was, so destroying a handle cannot invalidate a
/// handle whose address is another slot.
pub proof fn destruction_independence<A: Allocator>(entries: Seq<Slot<A>>, this: int, other: int)
    requires
        0 <= this < entries.len(),
        0 <= other < entries.len(),
        other != this,
    ensures
        entries.update(this, Slot::<A>::Vacant)[other] == entries[other],
{
}

/// Borrowed duplication aliasing: a borrowed handle and its duplicate
/// carry the same address, so any sequence of capability calls has the
/// same meaning through either — one shared referent sees the calls of
/// both.
pub proof fn borrowed_duplication_aliasing<A: Allocator, Traits>(
    h1: PolyAllocator<A, Traits>,
    h2: PolyAllocator<A, Traits>,
    entries: Seq<Slot<A>>,
    reqs: Seq<Request>,
)
    requires
        h1.data == h2.data,
    ensures
        dispatch_run(entries, h1.data as int, reqs) == dispatch_run(entries, h2.data as int, reqs),
{
}

} // verus!
