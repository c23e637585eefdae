use arceos_exercises::{AllocError, Allocation, EarlyAllocator, Layout};

fn layout(size: usize, align: usize) -> Layout {
    Layout::from_size_align(size, align).unwrap()
}

fn ready() -> EarlyAllocator<4096> {
    let mut a = EarlyAllocator::<4096>::new();
    a.init(0x1000, 0x10000);
    a
}

#[test]
fn fresh_allocator_has_no_memory() {
    let mut a = EarlyAllocator::<4096>::new();
    assert!(!a.is_initialized());
    assert_eq!(a.total_bytes(), 0);
    assert_eq!(a.alloc_bytes(layout(1, 1)), Err(AllocError::NoMemory));
    assert_eq!(a.alloc_pages(1, 4096), Err(AllocError::NoMemory));
}

#[test]
fn layouts_follow_the_standard_library() {
    let max = isize::MAX as usize;
    for size in [0, 1, 7, 4096, max - 7, max - 6, max, max + 1, usize::MAX] {
        for align in [0, 1, 2, 3, 8, 4096, 1 << 62, 1 << 63, usize::MAX] {
            let ours = Layout::from_size_align(size, align);
            let theirs = std::alloc::Layout::from_size_align(size, align);
            assert_eq!(ours.is_some(), theirs.is_ok(), "{} {}", size, align);
            if let Some(l) = ours {
                assert_eq!((l.size(), l.align()), (size, align));
            }
        }
    }
}

#[test]
fn rounding() {
    assert_eq!(EarlyAllocator::<4096>::align_up(0x1001, 8), 0x1008);
    assert_eq!(EarlyAllocator::<4096>::align_up(0x1008, 8), 0x1008);
    assert_eq!(EarlyAllocator::<4096>::align_down(0x1fff, 4096), 0x1000);
    assert_eq!(EarlyAllocator::<4096>::align_down(0x2000, 4096), 0x2000);
    // An alignment that is no power of two clears the bits of `align - 1`.
    assert_eq!(EarlyAllocator::<4096>::align_down(0b1111, 6), 0b1010);
}

#[test]
fn bytes_are_allocated_forward() {
    let mut a = ready();
    assert_eq!(a.alloc_bytes(layout(10, 8)), Ok(Allocation::At(0x1000)));
    assert_eq!(a.alloc_bytes(layout(10, 8)), Ok(Allocation::At(0x1010)));
    assert_eq!(a.alloc_bytes(layout(1, 1)), Ok(Allocation::At(0x101a)));
    assert_eq!(a.used_bytes(), 0x1b);
    assert_eq!(a.available_bytes(), 0x10000 - 0x1b);
    assert_eq!(a.total_bytes(), 0x10000);
}

#[test]
fn an_empty_request_takes_nothing() {
    let mut a = ready();
    assert_eq!(a.alloc_bytes(layout(0, 8)), Ok(Allocation::Dangling));
    assert_eq!(a.used_bytes(), 0);
    a.alloc_bytes(layout(4, 4)).unwrap();
    a.dealloc(Allocation::Dangling, layout(0, 8));
    assert_eq!(a.used_bytes(), 4);
}

#[test]
fn pages_are_allocated_backward() {
    let mut a = ready();
    assert_eq!(a.alloc_pages(1, 4096), Ok(0x10000));
    assert_eq!(a.alloc_pages(2, 1), Ok(0xe000));
    assert_eq!(a.alloc_pages(1, 0x4000), Ok(0xc000));
    assert_eq!(a.used_pages(), 5);
    assert_eq!(a.available_pages(), 11);
    assert_eq!(a.total_pages(), 16);
    a.dealloc_pages(0x10000, 1);
    assert_eq!(a.used_pages(), 5);
}

#[test]
fn bad_page_requests_are_refused() {
    let mut a = ready();
    assert_eq!(a.alloc_pages(0, 4096), Err(AllocError::InvalidParam));
    assert_eq!(a.alloc_pages(1, 0), Err(AllocError::InvalidParam));
    assert_eq!(a.alloc_pages(1, 3), Err(AllocError::InvalidParam));
    assert_eq!(a.alloc_pages(usize::MAX, 1), Err(AllocError::NoMemory));
    assert_eq!(a.alloc_pages(17, 1), Err(AllocError::NoMemory));
    assert_eq!(a.used_pages(), 0);
}

#[test]
fn pages_at_a_given_address() {
    let mut a = ready();
    assert_eq!(a.alloc_pages_at(0x10000, 1, 4096), Ok(0x10000));
    assert_eq!(a.alloc_pages_at(0xd000, 2, 4096), Err(AllocError::NoMemory));
    assert_eq!(a.alloc_pages_at(0xe001, 2, 4096), Err(AllocError::InvalidParam));
    assert_eq!(a.alloc_pages_at(0xe000, 0, 4096), Err(AllocError::InvalidParam));
    assert_eq!(a.alloc_pages_at(0xe000, 2, 5), Err(AllocError::InvalidParam));
    assert_eq!(a.alloc_pages_at(0xe001, usize::MAX, 4096), Err(AllocError::NoMemory));
    assert_eq!(
        a.alloc_pages_at(usize::MAX - 4095, 2, 4096),
        Err(AllocError::NoMemory)
    );
    assert_eq!(a.alloc_pages_at(0xe000, 2, 4096), Ok(0xe000));
    assert_eq!(a.used_pages(), 3);
}

#[test]
fn bytes_and_pages_meet() {
    let mut a = EarlyAllocator::<4096>::new();
    a.init(0x1000, 0x3000);
    a.alloc_pages(1, 1).unwrap();
    assert_eq!(a.alloc_bytes(layout(0x2001, 1)), Err(AllocError::NoMemory));
    assert_eq!(a.alloc_bytes(layout(0x1001, 1)), Ok(Allocation::At(0x1000)));
    assert_eq!(a.alloc_pages(1, 1), Err(AllocError::NoMemory));
    assert_eq!(a.alloc_bytes(layout(0xfff, 1)), Ok(Allocation::At(0x2001)));
    assert_eq!(a.available_bytes(), 0);
    assert_eq!(a.alloc_bytes(layout(1, 1)), Err(AllocError::NoMemory));
    let used = a.total_bytes() - a.available_bytes();
    assert_eq!(used, a.used_bytes() + a.used_pages() * 4096);
}

#[test]
fn the_bytes_area_is_freed_with_the_last_block() {
    let mut a = ready();
    let l = layout(100, 4);
    let p = a.alloc_bytes(l).unwrap();
    let q = a.alloc_bytes(l).unwrap();
    a.dealloc(p, l);
    assert_eq!(a.used_bytes(), 200);
    a.dealloc(q, l);
    assert_eq!(a.used_bytes(), 0);
    a.dealloc(q, l);
    assert_eq!(a.used_bytes(), 0);
    assert_eq!(a.alloc_bytes(l), Ok(Allocation::At(0x1000)));
}

#[test]
fn memory_is_added_at_the_ends() {
    let mut a = EarlyAllocator::<4096>::new();
    assert_eq!(a.add_memory(0x5000, 0), Ok(()));
    assert!(!a.is_initialized());
    assert_eq!(a.add_memory(0x5000, 0x1000), Ok(()));
    assert!(a.is_initialized());
    // Right below: the empty bytes area moves down.
    assert_eq!(a.add_memory(0x4000, 0x1000), Ok(()));
    assert_eq!(a.alloc_bytes(layout(1, 1)), Ok(Allocation::At(0x4000)));
    assert_eq!(a.add_memory(0x3000, 0x1000), Ok(()));
    assert_eq!(a.alloc_bytes(layout(1, 1)), Ok(Allocation::At(0x4001)));
    // Right above: the empty pages area moves up.
    assert_eq!(a.add_memory(0x6000, 0x1000), Ok(()));
    assert_eq!(a.alloc_pages(1, 1), Ok(0x6000));
    assert_eq!(a.add_memory(0x7000, 0x1000), Ok(()));
    assert_eq!(a.alloc_pages(1, 1), Ok(0x5000));
    assert_eq!(a.total_bytes(), 0x5000);
}

#[test]
fn memory_elsewhere_is_refused() {
    let mut a = ready();
    assert_eq!(a.add_memory(0, 0xfff), Err(AllocError::InvalidParam));
    assert_eq!(a.add_memory(0x11001, 1), Err(AllocError::InvalidParam));
    assert_eq!(a.add_memory(usize::MAX, 2), Err(AllocError::InvalidParam));
    assert_eq!(a.add_memory(0x2000, 1), Err(AllocError::MemoryOverlap));
    assert_eq!(a.add_memory(0, 0x1001), Err(AllocError::MemoryOverlap));
    assert_eq!(a.add_memory(0x10fff, 0x1000), Err(AllocError::MemoryOverlap));
    assert_eq!(a.total_bytes(), 0x10000);
}

#[test]
fn places_that_cannot_be_computed_are_told() {
    let mut a = EarlyAllocator::<4096>::new();
    a.init(usize::MAX - 8, 8);
    assert!(a.can_place(layout(1, 1)));
    assert!(!a.can_place(layout(1, 16)));
    assert!(a.can_place(layout(0, 16)));
    let mut b = EarlyAllocator::<4096>::new();
    b.init(0, 0x1000);
    assert!(!b.can_place(layout(1, 1)));
    assert!(b.can_place(layout(0x1001, 1)));
    assert_eq!(b.alloc_bytes(layout(0x1001, 1)), Err(AllocError::NoMemory));
}

#[test]
fn a_granted_address_is_the_next_one() {
    let (mut a, mut b) = (ready(), ready());
    assert_eq!(a.alloc_pages_at(0xf000, 2, 4096), Ok(0xf000));
    assert_eq!(b.alloc_pages(2, 4096), Ok(0xf000));
    assert_eq!(a.used_pages(), b.used_pages());
}

#[test]
fn pages_of_an_odd_size_do_not_overlap() {
    let mut a = EarlyAllocator::<3000>::new();
    a.init(0x1000, 0x10000);
    assert_eq!(a.alloc_pages(1, 1), Ok(0x10448));
    let next = a.alloc_pages(1, 1).unwrap();
    assert!(next + 3000 <= 0x10448);
    assert_eq!(a.alloc_pages(1, 4096).unwrap() % 4096, 0);
}

#[test]
fn the_bytes_area_is_freed_in_any_order() {
    let mut a = ready();
    let l = layout(16, 8);
    let first = a.alloc_bytes(l).unwrap();
    let second = a.alloc_bytes(l).unwrap();
    a.dealloc(first, l);
    assert_eq!(a.alloc_pages(1, 4096), Ok(0x10000));
    let third = a.alloc_bytes(l).unwrap();
    a.dealloc(third, l);
    assert_eq!(a.used_bytes(), 48);
    assert_eq!(a.alloc_pages_at(0xf000, 1, 4096), Ok(0xf000));
    assert_eq!(a.add_memory(0x11000, 0x1000), Ok(()));
    a.dealloc(second, l);
    assert_eq!(a.used_bytes(), 0);
    assert_eq!(a.available_bytes(), a.total_bytes() - 0x3000);
    assert_eq!(a.alloc_bytes(l), Ok(Allocation::At(0x1000)));
}

#[test]
fn nothing_overlaps_in_any_order() {
    let mut a = ready();
    let (mut bytes, mut pages) = (Vec::new(), Vec::new());
    for (size, align) in [(24, 8), (1, 1), (100, 64), (4096, 4096), (7, 2)] {
        match a.alloc_bytes(layout(size, align)) {
            Ok(Allocation::At(start)) => bytes.push((start, start + size)),
            other => panic!("{:?}", other),
        }
        let start = a.alloc_pages(1, align).unwrap();
        pages.push((start, start + 4096));
    }
    a.dealloc(Allocation::At(bytes[1].0), layout(1, 1));
    assert!(bytes.windows(2).all(|w| w[0].1 <= w[1].0));
    assert!(pages.windows(2).all(|w| w[1].1 <= w[0].0));
    assert!(bytes[4].1 <= pages[4].0);
}
