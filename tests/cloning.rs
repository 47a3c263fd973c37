use clone_into_box::erased::{CloneError, CloneIntoBox, CloneIntoBoxExt};
use clone_into_box::handle::ErasedBox;
use clone_into_box::heap::Heap;
use clone_into_box::layout::Layout;
use clone_into_box::plain::{PlainData, Unique};

fn plain(size: usize, align: usize) -> PlainData {
    PlainData { layout: Layout::new(size, align).unwrap() }
}

fn greet(heap: &Heap, b: &ErasedBox<dyn CloneIntoBox>) -> String {
    let captured = String::from_utf8(b.contents(heap)).unwrap();
    format!("{} world!", captured)
}

#[test]
fn test_clone_fn() {
    let mut heap = Heap::new();
    let s = String::from("Hello,");
    let desc = plain(s.len(), 1);
    let f: ErasedBox<dyn CloneIntoBox> = ErasedBox::new(&mut heap, &desc, s.into_bytes());
    assert_eq!(greet(&heap, &f), "Hello, world!");
    let ff = match f.clone_to_owned(&mut heap) {
        Ok(c) => c,
        Err(e) => panic!("clone failed: {:?}", e),
    };
    f.free(&mut heap);
    assert_eq!(greet(&heap, &ff), "Hello, world!");
    assert_eq!(heap.live_blocks(), 1);
}

#[test]
#[should_panic(expected = "PanicClone::clone() is called")]
fn test_clone_panic() {
    let mut heap = Heap::new();
    let s = String::from("Hello,");
    let desc = Unique { layout: Layout::new(s.len(), 1).unwrap(), error: CloneError { code: 7 } };
    let f: ErasedBox<dyn CloneIntoBox> = ErasedBox::new(&mut heap, &desc, s.into_bytes());
    assert_eq!(greet(&heap, &f), "Hello, world!");
    if f.clone_to_owned(&mut heap).is_err() {
        panic!("PanicClone::clone() is called");
    }
}

#[test]
fn failed_clone_releases_its_block() {
    let mut heap = Heap::new();
    let desc = Unique { layout: Layout::new(16, 8).unwrap(), error: CloneError { code: 7 } };
    let f: ErasedBox<dyn CloneIntoBox> = ErasedBox::new(&mut heap, &desc, vec![3u8; 16]);
    let allocs = heap.allocations();
    let deallocs = heap.deallocations();
    let live = heap.live_blocks();
    let r = f.clone_to_owned(&mut heap);
    assert!(matches!(r, Err(CloneError { code: 7 })));
    assert_eq!(heap.allocations(), allocs + 1);
    assert_eq!(heap.deallocations(), deallocs + 1);
    assert_eq!(heap.live_blocks(), live);
    assert_eq!(f.contents(&heap), vec![3u8; 16]);
}

#[test]
fn clone_has_same_type_and_bytes() {
    let mut heap = Heap::new();
    let desc = plain(4, 4);
    let f: ErasedBox<dyn CloneIntoBox> = ErasedBox::new(&mut heap, &desc, vec![1, 2, 3, 4]);
    let c = f.clone_to_owned(&mut heap).ok().unwrap();
    assert_eq!(c.layout(), f.layout());
    assert_eq!(c.layout(), Layout { size: 4, align: 4 });
    assert_ne!(c.addr(), f.addr());
    assert_eq!(c.addr() % 4, 0);
    assert_eq!(c.contents(&heap), vec![1, 2, 3, 4]);
    assert_eq!(f.contents(&heap), vec![1, 2, 3, 4]);
    assert_eq!(heap.live_blocks(), 2);
}

#[test]
fn writes_do_not_cross_between_clone_and_source() {
    let mut heap = Heap::new();
    let desc = plain(3, 1);
    let f: ErasedBox<dyn CloneIntoBox> = ErasedBox::new(&mut heap, &desc, vec![9, 9, 9]);
    let c = f.clone_to_owned(&mut heap).ok().unwrap();
    c.set_contents(&mut heap, vec![1, 2, 3]);
    assert_eq!(f.contents(&heap), vec![9, 9, 9]);
    f.set_contents(&mut heap, vec![4, 5, 6]);
    assert_eq!(c.contents(&heap), vec![1, 2, 3]);
    assert_eq!(f.contents(&heap), vec![4, 5, 6]);
}

#[test]
fn zero_sized_clone_touches_no_storage() {
    let mut heap = Heap::new();
    let desc = plain(0, 8);
    let f: ErasedBox<dyn CloneIntoBox> = ErasedBox::new(&mut heap, &desc, Vec::new());
    assert_eq!(f.addr(), 8);
    let c = f.clone_to_owned(&mut heap).ok().unwrap();
    assert_eq!(c.addr(), 8);
    assert_eq!(heap.allocations(), 0);
    assert_eq!(heap.live_blocks(), 0);
    assert_eq!(c.contents(&heap), Vec::<u8>::new());
    c.free(&mut heap);
    assert_eq!(heap.deallocations(), 0);
}

#[test]
fn zero_sized_failing_clone_reports_error() {
    let mut heap = Heap::new();
    let desc = Unique { layout: Layout::new(0, 1).unwrap(), error: CloneError { code: 7 } };
    let f: ErasedBox<dyn CloneIntoBox> = ErasedBox::new(&mut heap, &desc, Vec::new());
    assert!(matches!(f.clone_to_owned(&mut heap), Err(CloneError { code: 7 })));
    assert_eq!(heap.allocations(), 0);
    assert_eq!(heap.deallocations(), 0);
}

#[test]
fn engine_returns_aligned_fresh_address() {
    let mut heap = Heap::new();
    let desc = plain(5, 16);
    let f: ErasedBox<dyn CloneIntoBox> = ErasedBox::new(&mut heap, &desc, vec![7; 5]);
    assert_eq!(f.addr(), 16);
    let addr = desc.clone_into_box(&mut heap, f.addr()).unwrap();
    assert_eq!(addr, 32);
    assert_eq!(heap.read(addr), vec![7; 5]);
}

#[test]
fn layout_needs_nonzero_alignment() {
    assert_eq!(Layout::new(4, 0), None);
    assert_eq!(Layout::new(4, 2), Some(Layout { size: 4, align: 2 }));
}

#[test]
fn heap_allocates_at_aligned_addresses() {
    let mut heap = Heap::new();
    let a = heap.allocate(Layout { size: 3, align: 1 });
    assert_eq!(a, 1);
    let b = heap.allocate(Layout { size: 2, align: 4 });
    assert_eq!(b, 4);
    assert_eq!(heap.read(b).len(), 2);
    assert!(heap.is_live(a));
    heap.deallocate(a, Layout { size: 3, align: 1 });
    assert!(!heap.is_live(a));
    assert_eq!(heap.live_blocks(), 1);
    assert_eq!(heap.allocations(), 2);
    assert_eq!(heap.deallocations(), 1);
}

#[test]
fn heap_reports_exhaustion() {
    let mut heap = Heap::new();
    assert!(heap.has_room(Layout { size: 0, align: 1 }));
    assert!(!heap.has_room(Layout { size: usize::MAX, align: 1 }));
    assert!(heap.has_room(Layout { size: usize::MAX - 1, align: 1 }));
    let _ = heap.allocate(Layout { size: 10, align: 1 });
    assert!(!heap.has_room(Layout { size: usize::MAX - 10, align: 1 }));
    assert!(heap.has_room(Layout { size: usize::MAX - 11, align: 1 }));
}

#[test]
fn writing_a_block_keeps_the_others() {
    let mut heap = Heap::new();
    let a = heap.allocate(Layout { size: 2, align: 1 });
    let b = heap.allocate(Layout { size: 2, align: 1 });
    heap.write(a, vec![1, 1]);
    heap.write(b, vec![2, 2]);
    heap.write(a, vec![3, 3]);
    assert_eq!(heap.read(a), vec![3, 3]);
    assert_eq!(heap.read(b), vec![2, 2]);
}
