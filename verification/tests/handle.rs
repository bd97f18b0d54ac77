use polyalloc::LocalPolyAllocator;
use polyalloc::arena::Arena;
use polyalloc::capability::Layout;
use polyalloc::capability::Request;
use polyalloc::capability::replay_direct;
use polyalloc::capability::Allocator;
use polyalloc::stubs::BumpAllocator;
use polyalloc::stubs::FailAllocator;

#[test]
fn owned_bump_scenario() {
    // A bump stub with 64 bytes of backing storage, wrapped as owned:
    // hosting the allocator itself consumes 32 of the 64 bytes.
    let mut arena: Arena<BumpAllocator> = Arena::new();
    let h = LocalPolyAllocator::owned(BumpAllocator::new(0, 64), &mut arena);

    let b1 = h.allocate(&mut arena, Layout { size: 16, align: 8 }).unwrap();
    let b2 = h.allocate(&mut arena, Layout { size: 16, align: 8 }).unwrap();
    assert_eq!(b1.addr, 32);
    assert_eq!(b1.size, 16);
    assert_eq!(b2.addr, 48);
    assert_eq!(b2.size, 16);
    // Two non-overlapping blocks inside the 64-byte region.
    assert!(b1.addr + b1.size <= b2.addr);
    assert!(b2.addr + b2.size <= 64);

    // A third request no longer fits.
    assert!(h.allocate(&mut arena, Layout { size: 16, align: 8 }).is_err());

    // Destroying the handle releases the stub, which records exactly one
    // deallocate call: the one for its own storage.
    let data = h.data;
    let released = h.destroy(&mut arena).unwrap();
    assert_eq!(released.deallocs, 1);
    assert_eq!(arena.len(), 1);
    assert!(arena.is_vacant(data));
}

#[test]
fn owned_duplicate_is_independent() {
    let mut arena: Arena<BumpAllocator> = Arena::new();
    let h1 = LocalPolyAllocator::owned(BumpAllocator::new(0, 1024), &mut arena);
    let h2 = h1.duplicate(&mut arena);
    assert_ne!(h1.data, h2.data);

    // Allocating and deallocating through the duplicate leaves the
    // source's wrapped allocator untouched.
    let before = *arena.value_of(h1.data);
    let b = h2.allocate(&mut arena, Layout { size: 16, align: 8 }).unwrap();
    h2.deallocate(&mut arena, b.addr, Layout { size: 16, align: 8 });
    assert_eq!(*arena.value_of(h1.data), before);

    // Destroying the duplicate does not invalidate the source; the
    // duplicate's own counter holds the one deallocate above plus the
    // release of its own storage.
    let released = h2.destroy(&mut arena).unwrap();
    assert_eq!(released.deallocs, 2);
    assert!(h1.allocate(&mut arena, Layout { size: 8, align: 8 }).is_ok());
}

#[test]
fn borrowed_duplicate_aliases() {
    let mut arena: Arena<BumpAllocator> = Arena::new();
    let slot = arena.lend(BumpAllocator::new(0, 64));
    let h1 = LocalPolyAllocator::borrowed(slot, &arena);
    let h2 = h1.duplicate(&mut arena);
    assert_eq!(h1.data, h2.data);

    // Allocations through either handle land on the one shared referent.
    let b1 = h1.allocate(&mut arena, Layout { size: 16, align: 8 }).unwrap();
    let b2 = h2.allocate(&mut arena, Layout { size: 16, align: 8 }).unwrap();
    assert_eq!(b1.addr, 0);
    assert_eq!(b2.addr, 16);

    // Destroying either handle is a no-op.
    assert!(h1.destroy(&mut arena).is_none());
    assert!(h2.destroy(&mut arena).is_none());
    let back = arena.reclaim(slot);
    assert_eq!(back.used, 32);
    assert_eq!(back.deallocs, 0);
}

#[test]
fn round_trip_matches_direct() {
    let reqs = vec![
        Request::Allocate(Layout { size: 8, align: 8 }),
        Request::AllocateZeroed(Layout { size: 5, align: 1 }),
        Request::Deallocate(32, Layout { size: 8, align: 8 }),
        Request::Grow(32, Layout { size: 8, align: 8 }, Layout { size: 24, align: 4 }),
        Request::GrowZeroed(32, Layout { size: 8, align: 8 }, Layout { size: 9, align: 2 }),
        Request::Shrink(32, Layout { size: 8, align: 8 }, Layout { size: 2, align: 1 }),
        Request::Allocate(Layout { size: 1000, align: 1 }),
    ];

    // Directly: start from the state that owned construction leaves the
    // allocator in, its own 32-byte storage already taken.
    let mut direct = BumpAllocator::new(0, 256);
    let home = direct.allocate(Layout { size: 32, align: 8 }).unwrap();
    assert_eq!(home.addr, 0);
    let outs_direct = replay_direct(&mut direct, &reqs);

    // Through an erased handle: bit-identical outcomes, same final state.
    let mut arena: Arena<BumpAllocator> = Arena::new();
    let h = LocalPolyAllocator::owned(BumpAllocator::new(0, 256), &mut arena);
    let outs_handle = h.replay(&mut arena, &reqs);

    assert_eq!(outs_direct, outs_handle);
    assert_eq!(*arena.value_of(h.data), direct);
}

#[test]
fn failure_propagates_unchanged() {
    let mut arena: Arena<FailAllocator> = Arena::new();
    let slot = arena.lend(FailAllocator::new(16));
    let h = LocalPolyAllocator::borrowed(slot, &arena);

    // Above the limit the failure comes through verbatim; at the limit
    // the stub's answer comes through verbatim.
    assert!(h.allocate(&mut arena, Layout { size: 17, align: 1 }).is_err());
    assert!(h.grow_zeroed(
        &mut arena,
        0,
        Layout { size: 4, align: 1 },
        Layout { size: 90, align: 1 },
    )
    .is_err());
    let b = h.allocate(&mut arena, Layout { size: 16, align: 1 }).unwrap();
    assert_eq!(b.addr, 0);
    assert_eq!(b.size, 16);

    // No observable mutation happened on the referent.
    assert!(h.destroy(&mut arena).is_none());
    assert_eq!(arena.reclaim(slot), FailAllocator::new(16));
}

#[test]
fn owned_construction_propagates_failure() {
    // The stub's own storage takes 8 bytes, so a limit below that makes
    // owned construction fail, with no side effect on the arena.
    let mut arena: Arena<FailAllocator> = Arena::new();
    let r = LocalPolyAllocator::try_owned(FailAllocator::new(4), &mut arena);
    assert!(r.is_err());
    assert_eq!(arena.len(), 0);

    let r = LocalPolyAllocator::try_owned(FailAllocator::new(8), &mut arena);
    assert!(r.is_ok());
    assert_eq!(arena.len(), 1);
}
