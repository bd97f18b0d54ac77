use polyalloc::LocalPolyAllocator;
use polyalloc::SendPolyAllocator;
use polyalloc::SharedPolyAllocator;
use polyalloc::allocator::PolyAllocator;
use polyalloc::arena::Arena;
use polyalloc::capability::Layout;
use polyalloc::stubs::BumpAllocator;
use polyalloc::stubs::FailAllocator;
use polyalloc::stubs::PinnedAllocator;
use polyalloc::traits::LocalTrait;
use polyalloc::vtable::OwnershipMode;
use polyalloc::vtable::RawPolyAllocVTable;

#[test]
fn local_accepts_any_allocator() {
    // The local variant accepts even a thread-pinned allocator.
    let mut arena: Arena<PinnedAllocator> = Arena::new();
    let slot = arena.lend(PinnedAllocator::new());
    let h = LocalPolyAllocator::borrowed(slot, &arena);
    assert!(h.allocate(&mut arena, Layout { size: 1, align: 1 }).is_err());
    assert!(h.destroy(&mut arena).is_none());

    let mut arena2: Arena<BumpAllocator> = Arena::new();
    let h2 = LocalPolyAllocator::owned(BumpAllocator::new(0, 64), &mut arena2);
    assert!(h2.allocate(&mut arena2, Layout { size: 8, align: 8 }).is_ok());
}

#[test]
fn sendable_accepts_sendable_allocator() {
    let mut arena: Arena<BumpAllocator> = Arena::new();
    let h = SendPolyAllocator::owned(BumpAllocator::new(0, 64), &mut arena);
    let b = h.allocate(&mut arena, Layout { size: 8, align: 8 }).unwrap();
    assert_eq!(b.addr, 32);

    let slot = arena.lend(BumpAllocator::new(64, 64));
    let hb = SendPolyAllocator::borrowed(slot, &arena);
    let b2 = hb.allocate(&mut arena, Layout { size: 8, align: 8 }).unwrap();
    assert_eq!(b2.addr, 64);
}

#[test]
fn shared_accepts_concurrency_safe_allocator() {
    let mut arena: Arena<FailAllocator> = Arena::new();
    let r = SharedPolyAllocator::try_owned(FailAllocator::new(64), &mut arena);
    let h = r.unwrap();
    assert!(h.allocate(&mut arena, Layout { size: 64, align: 2 }).is_ok());
    assert!(h.allocate(&mut arena, Layout { size: 65, align: 2 }).is_err());

    let slot = arena.lend(FailAllocator::new(0));
    let hb = SharedPolyAllocator::borrowed(slot, &arena);
    assert!(hb.allocate(&mut arena, Layout { size: 1, align: 1 }).is_err());
}

#[test]
fn handle_size_is_type_independent() {
    // One fixed representation, whatever the wrapped allocator's own
    // size: two machine words.
    let s1 = core::mem::size_of::<LocalPolyAllocator<BumpAllocator>>();
    let s2 = core::mem::size_of::<LocalPolyAllocator<FailAllocator>>();
    let s3 = core::mem::size_of::<SharedPolyAllocator<BumpAllocator>>();
    let s4 = core::mem::size_of::<SendPolyAllocator<PinnedAllocator>>();
    assert_eq!(s1, s2);
    assert_eq!(s1, s3);
    assert_eq!(s1, s4);
    assert_eq!(s1, 2 * core::mem::size_of::<usize>());
    // The wrapped allocators themselves differ in size.
    assert_ne!(
        core::mem::size_of::<BumpAllocator>(),
        core::mem::size_of::<FailAllocator>()
    );
}

#[test]
fn raw_parts_round_trip() {
    let mut arena: Arena<BumpAllocator> = Arena::new();
    let h = LocalPolyAllocator::owned(BumpAllocator::new(0, 64), &mut arena);
    let (data, table) = h.into_raw_parts();
    assert_eq!(data, 0);
    assert_eq!(table.mode, OwnershipMode::Owned);

    let h2: PolyAllocator<BumpAllocator, LocalTrait> = PolyAllocator::from_raw_parts(data, table);
    let b = h2.allocate(&mut arena, Layout { size: 8, align: 8 }).unwrap();
    assert_eq!(b.addr, 32);
}

#[test]
fn tables_are_mode_singletons() {
    // Table construction is pure: every table built for a mode is the
    // same table, so table identity carries exactly the mode.
    let o1 = RawPolyAllocVTable::owned::<BumpAllocator>();
    let o2 = RawPolyAllocVTable::owned::<FailAllocator>();
    let b1 = RawPolyAllocVTable::borrowed::<BumpAllocator>();
    assert_eq!(o1, o2);
    assert_ne!(o1, b1);
    assert_eq!(b1.mode, OwnershipMode::Borrowed);
}
