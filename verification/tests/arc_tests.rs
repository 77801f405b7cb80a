use baselibs::allocator::GlobalAllocator;
use baselibs::arc_in::ArcIn;

#[test]
fn new_and_deref() {
    let alloc = GlobalAllocator;
    let arc = ArcIn::new_in(42, alloc);
    assert_eq!(*arc.get(), 42);
    assert_eq!(ArcIn::strong_count(&arc), 1);
}

#[test]
fn clone_increases_count() {
    let alloc = GlobalAllocator;
    let arc1 = ArcIn::new_in(100, alloc);
    let arc2 = arc1.clone();
    assert_eq!(ArcIn::strong_count(&arc1), 2);
    assert_eq!(*arc2.get(), 100);
}

#[test]
fn drop_decreases_count() {
    let alloc = GlobalAllocator;
    let arc1 = ArcIn::new_in(55, alloc);
    assert_eq!(ArcIn::strong_count(&arc1), 1);
    {
        let _arc2 = arc1.clone();
        assert_eq!(ArcIn::strong_count(&arc1), 2);
    }
    // arc2 dropped
    assert_eq!(ArcIn::strong_count(&arc1), 1);
}

#[test]
fn default_trait() {
    let arc: ArcIn<u32, GlobalAllocator> = ArcIn::default();
    assert_eq!(*arc.get(), 0);
    assert_eq!(ArcIn::strong_count(&arc), 1);
}

#[test]
fn strong_count_multiple_clones() {
    let alloc = GlobalAllocator;
    let arc = ArcIn::new_in(123, alloc);
    let clones: Vec<_> = (0..5).map(|_| arc.clone()).collect();
    assert_eq!(ArcIn::strong_count(&arc), 6);
    drop(clones);
    assert_eq!(ArcIn::strong_count(&arc), 1);
}

#[test]
fn drop_on_zero() {
    struct DropCounter<'a>(&'a mut bool);
    impl<'a> Drop for DropCounter<'a> {
        fn drop(&mut self) {
            *self.0 = true;
        }
    }

    let alloc = GlobalAllocator;
    let mut dropped = false;
    {
        let arc = ArcIn::new_in(DropCounter(&mut dropped), alloc);
        assert!(!*arc.get().0);
    }
    assert!(dropped);
}

#[test]
fn shared_value_is_shared() {
    let alloc = GlobalAllocator;
    let arc1 = ArcIn::new_in(String::from("shared"), alloc);
    let arc2 = arc1.clone();
    drop(arc1);
    assert_eq!(arc2.get(), "shared");
}
