//! Fixed-capacity storage embedded directly in the owning object.

use vstd::prelude::*;

use crate::storage::Storage;

verus! {

/// A fresh block of `N` uninitialized slots.
fn fresh_slots<T: Copy, const N: usize>() -> (r: [Option<T>; N])
    ensures
        forall|i: int| 0 <= i < N ==> r@[i] is None,
{
    let slots: [Option<T>; N] = [None; N];
    proof {
        assert forall|i: int| 0 <= i < N implies slots@[i] is None by {
            assert(slots == vstd::array::spec_array_fill_for_copy_type::<Option<T>, N>(None));
        }
    }
    slots
}

/// Fixed-capacity, inline storage: the element slots are embedded by value, so
/// the storage performs no allocation of its own and lives exactly as long as
/// its owner.
///
/// `CAPACITY` is in number of elements, not bytes. It must not be zero, and it
/// must be at most `u32::MAX`; both are enforced at construction.
pub struct Inline<T: Copy, const CAPACITY: usize> {
    /// The embedded slots.
    elements: [Option<T>; CAPACITY],
}

impl<T: Copy, const CAPACITY: usize> Storage<T> for Inline<T, CAPACITY> {
    closed spec fn slots(&self) -> Seq<Option<T>> {
        self.elements@
    }

    closed spec fn inv(&self) -> bool {
        CAPACITY <= u32::MAX as usize
    }

    open spec fn valid_capacity(capacity: u32) -> bool {
        capacity as usize == CAPACITY && 0 < CAPACITY
    }

    fn new(capacity: u32) -> (s: Self) {
        Inline { elements: fresh_slots() }
    }

    fn try_new(capacity: u32) -> (r: Option<Self>) {
        if capacity as usize == CAPACITY && 0 < CAPACITY {
            Some(Self::new(capacity))
        } else {
            None
        }
    }

    fn capacity(&self) -> (c: u32) {
        CAPACITY as u32
    }

    fn element(&self, index: u32) -> (r: &Option<T>) {
        &self.elements[index as usize]
    }

    fn element_mut(&mut self, index: u32) -> (r: &mut Option<T>) {
        &mut self.elements[index as usize]
    }
}

} // verus!
