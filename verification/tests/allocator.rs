use jarvis_kernel::allocator::linked_list::{align_up, LinkedListAllocator, LockedAllocator};
use jarvis_kernel::allocator::slab::{Slab, SlabAllocator};

#[test]
fn align_up_values() {
    assert_eq!(align_up(0, 8), 0);
    assert_eq!(align_up(1, 8), 8);
    assert_eq!(align_up(16, 8), 16);
    assert_eq!(align_up(17, 16), 32);
}

#[test]
fn new_allocator_is_empty() {
    let a = LinkedListAllocator::new();
    assert_eq!(a.used(), 0);
    assert_eq!(a.size(), 0);
}

#[test]
fn init_records_heap() {
    let mut a = LinkedListAllocator::new();
    a.init(0x1000, 0x4000);
    assert_eq!(a.size(), 0x4000);
    assert_eq!(a.free, vec![(0x1000, 0x4000)]);
}

#[test]
fn alloc_takes_front_and_returns_tail() {
    let mut l = LockedAllocator::new();
    l.lock().init(0x1000, 0x1000);
    // 10 bytes become a 16-byte block (the node header size).
    let p = l.allocate(10, 8).unwrap();
    assert_eq!(p, 0x1000);
    assert_eq!(l.inner.used(), 16);
    assert_eq!(l.inner.free, vec![(0x1010, 0xFF0)]);
    let q = l.allocate(24, 8).unwrap();
    assert_eq!(q, 0x1010);
    assert_eq!(l.inner.used(), 40);
}

#[test]
fn alloc_respects_alignment() {
    let mut l = LockedAllocator::new();
    l.lock().init(0x1008, 0x1000);
    let p = l.allocate(32, 64).unwrap();
    assert_eq!(p % 64, 0);
    assert_eq!(p, 0x1040);
    // The padding in front of the block is not given back.
    assert_eq!(l.inner.free, vec![(0x1060, 0x1008 + 0x1000 - 0x1060)]);
}

#[test]
fn alloc_fails_when_nothing_fits() {
    let mut l = LockedAllocator::new();
    l.lock().init(0x1000, 64);
    assert_eq!(l.allocate(128, 8), None);
    assert_eq!(l.inner.used(), 0);
    // A tail shorter than a node header is refused too: 64 - 56 = 8 < 16.
    assert_eq!(l.allocate(56, 8), None);
    assert_eq!(l.allocate(64, 8), Some(0x1000));
    assert!(l.inner.free.is_empty());
}

#[test]
fn dealloc_returns_block_and_used() {
    let mut l = LockedAllocator::new();
    l.lock().init(0x2000, 0x100);
    let p = l.allocate(40, 8).unwrap();
    assert_eq!(l.inner.used(), 40);
    l.deallocate(p, 40, 8);
    assert_eq!(l.inner.used(), 0);
    assert_eq!(l.inner.free[0], (0x2000, 40));
    // Total free bytes are back to the heap size (alignment 8, no padding).
    let total: usize = l.inner.free.iter().map(|r| r.1).sum();
    assert_eq!(total, 0x100);
}

#[test]
fn slab_lifo() {
    let mut s: Slab<u64> = Slab::new();
    assert_eq!(s.size, 8);
    s.init(0x8000, 3);
    assert_eq!(s.free, vec![0x8000, 0x8008, 0x8010]);
    assert_eq!(s.allocate(), Some(0x8010));
    assert_eq!(s.allocate(), Some(0x8008));
    s.deallocate(0x8010);
    assert_eq!(s.allocate(), Some(0x8010));
    assert_eq!(s.allocate(), Some(0x8000));
    assert_eq!(s.allocate(), None);
}

#[test]
fn slab_allocator_wraps_slab() {
    let mut a: SlabAllocator<[u64; 2]> = SlabAllocator::new();
    a.init(0x100, 2);
    let x = a.allocate().unwrap();
    assert_eq!(x, 0x110);
    a.dealloc(x);
    assert_eq!(a.allocate(), Some(0x110));
}
