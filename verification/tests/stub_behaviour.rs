use polyalloc::capability::Allocator;
use polyalloc::capability::DuplicableAllocator;
use polyalloc::capability::Layout;
use polyalloc::stubs::BumpAllocator;
use polyalloc::stubs::FailAllocator;

#[test]
fn bump_aligns_the_cursor() {
    // Cursor starts at 3; a 4-byte request aligned to 8 pads to 8.
    let mut a = BumpAllocator::new(3, 61);
    let b = a.allocate(Layout { size: 4, align: 8 }).unwrap();
    assert_eq!(b.addr, 8);
    assert_eq!(b.size, 4);
    assert_eq!(a.used, 9);

    // An already-aligned cursor needs no padding.
    let mut c = BumpAllocator::new(16, 16);
    let b2 = c.allocate(Layout { size: 16, align: 16 }).unwrap();
    assert_eq!(b2.addr, 16);
    assert_eq!(c.used, 16);
    assert!(c.allocate(Layout { size: 1, align: 1 }).is_err());
}

#[test]
fn bump_grow_hands_out_fresh_blocks() {
    let mut a = BumpAllocator::new(0, 64);
    let b = a.allocate(Layout { size: 8, align: 8 }).unwrap();
    assert_eq!(b.addr, 0);
    let g = a
        .grow(b.addr, Layout { size: 8, align: 8 }, Layout { size: 16, align: 8 })
        .unwrap();
    assert_eq!(g.addr, 8);
    assert_eq!(g.size, 16);
    let s = a
        .shrink(g.addr, Layout { size: 16, align: 8 }, Layout { size: 4, align: 4 })
        .unwrap();
    assert_eq!(s.addr, 24);
    assert_eq!(s.size, 4);
    assert_eq!(a.used, 28);
}

#[test]
fn bump_records_deallocations() {
    let mut a = BumpAllocator::new(0, 64);
    let b = a.allocate(Layout { size: 8, align: 8 }).unwrap();
    assert_eq!(a.deallocs, 0);
    a.deallocate(b.addr, Layout { size: 8, align: 8 });
    a.deallocate(b.addr, Layout { size: 8, align: 8 });
    assert_eq!(a.deallocs, 2);
    // Deallocation never reclaims storage in a bump stub.
    assert_eq!(a.used, 8);
}

#[test]
fn duplicates_are_value_identical() {
    let mut a = BumpAllocator::new(8, 56);
    let _ = a.allocate(Layout { size: 8, align: 8 });
    let d = a.duplicate();
    assert_eq!(a, d);
    assert_eq!(FailAllocator::new(7).duplicate(), FailAllocator::new(7));
}

#[test]
fn fail_stub_refuses_above_limit_only() {
    let mut f = FailAllocator::new(10);
    assert!(f.allocate(Layout { size: 11, align: 1 }).is_err());
    let b = f.allocate(Layout { size: 10, align: 4 }).unwrap();
    assert_eq!(b.addr, 0);
    assert_eq!(b.size, 10);
    assert!(f.allocate_zeroed(Layout { size: 11, align: 1 }).is_err());
    assert!(
        f.grow(0, Layout { size: 2, align: 1 }, Layout { size: 11, align: 1 }).is_err()
    );
    assert!(
        f.shrink(0, Layout { size: 20, align: 1 }, Layout { size: 10, align: 1 }).is_ok()
    );
    // Nothing it does ever changes its state.
    assert_eq!(f, FailAllocator::new(10));
}
