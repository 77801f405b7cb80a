//! Fixed-capacity, heap-allocated storage.

use vstd::prelude::*;

use crate::storage::Storage;

verus! {

/// Fixed-capacity storage whose slots live in one heap allocation made at
/// construction and released when the storage is dropped.
///
/// A capacity of zero allocates nothing that is ever read or written.
pub struct Heap<T> {
    /// The allocated slots; the length never changes after construction.
    elements: Vec<Option<T>>,
}

impl<T> Storage<T> for Heap<T> {
    closed spec fn slots(&self) -> Seq<Option<T>> {
        self.elements@
    }

    closed spec fn inv(&self) -> bool {
        self.elements@.len() <= u32::MAX
    }

    open spec fn valid_capacity(capacity: u32) -> bool {
        true
    }

    fn new(capacity: u32) -> (s: Self) {
        let mut elements: Vec<Option<T>> = Vec::new();
        let mut i: u32 = 0;
        while i < capacity
            invariant
                i <= capacity,
                elements@.len() == i as nat,
                forall|j: int| 0 <= j < i ==> elements@[j] is None,
            decreases capacity - i,
        {
            elements.push(None);
            i = i + 1;
        }
        Heap { elements }
    }

    fn try_new(capacity: u32) -> (r: Option<Self>) {
        Some(Self::new(capacity))
    }

    fn capacity(&self) -> (c: u32) {
        self.elements.len() as u32
    }

    fn element(&self, index: u32) -> (r: &Option<T>) {
        &self.elements[index as usize]
    }

    fn element_mut(&mut self, index: u32) -> (r: &mut Option<T>) {
        &mut self.elements[index as usize]
    }
}

} // verus!
