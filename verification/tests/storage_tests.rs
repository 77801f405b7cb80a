use baselibs::allocator::{AllocationError, BasicAllocator, GlobalAllocator};
use baselibs::heap::Heap;
use baselibs::inline::Inline;
use baselibs::storage::Storage;

#[test]
fn heap_zero_capacity() {
    let storage = Heap::<u64>::new(0);
    assert_eq!(storage.capacity(), 0);
}

#[test]
fn heap_slots_start_uninitialized() {
    let storage = Heap::<u64>::new(4);
    assert_eq!(storage.capacity(), 4);
    for i in 0..4 {
        assert!(storage.element(i).is_none());
    }
}

#[test]
fn heap_put_and_take() {
    let mut storage = Heap::<String>::new(2);
    *storage.element_mut(1) = Some(String::from("x"));
    assert_eq!(storage.element(0), &None);
    assert_eq!(storage.element(1), &Some(String::from("x")));
    let taken = storage.element_mut(1).take();
    assert_eq!(taken, Some(String::from("x")));
    assert!(storage.element(1).is_none());
}

#[test]
fn heap_try_new_any_capacity() {
    assert!(Heap::<u8>::try_new(0).is_some());
    assert!(Heap::<u8>::try_new(100).is_some());
}

#[test]
fn inline_capacity_fixed() {
    let storage = Inline::<u64, 3>::new(3);
    assert_eq!(storage.capacity(), 3);
    for i in 0..3 {
        assert!(storage.element(i).is_none());
    }
}

#[test]
fn inline_try_new_rejects_other_capacities() {
    assert!(Inline::<u64, 3>::try_new(3).is_some());
    assert!(Inline::<u64, 3>::try_new(2).is_none());
    assert!(Inline::<u64, 3>::try_new(4).is_none());
}

#[test]
fn inline_put_and_take() {
    let mut storage = Inline::<u64, 2>::new(2);
    *storage.element_mut(0) = Some(11);
    assert_eq!(storage.element(0), &Some(11));
    assert_eq!(storage.element_mut(0).take(), Some(11));
    assert!(storage.element(0).is_none());
}

#[test]
fn global_allocator_zero_size() {
    let alloc = GlobalAllocator;
    let result = alloc.allocate(0, 1);
    assert!(matches!(result, Err(AllocationError::ZeroSizeAllocation)));
}

#[test]
fn global_allocator_allocate_and_deallocate() {
    let alloc = GlobalAllocator;
    let block = alloc.allocate(16, 8).unwrap();
    assert_eq!(block.len(), 16);
    assert!(block.iter().all(|&b| b == 0));
    alloc.deallocate(block, 16, 8);
}
