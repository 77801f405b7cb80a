//! A fixed-capacity double-ended queue backed by one heap allocation.

use vstd::prelude::*;

use crate::generic_queue::{GenericQueue, InsufficientCapacity};
use crate::heap::Heap;

verus! {

/// A fixed-capacity queue.
///
/// The queue can hold between 0 and `capacity` elements, and behaves similarly
/// to `VecDeque`, except that it acquires its storage immediately on
/// construction and can't shrink or grow.
pub struct FixedCapacityQueue<T> {
    inner: GenericQueue<T, Heap<T>>,
}

impl<T> View for FixedCapacityQueue<T> {
    type V = Seq<T>;

    closed spec fn view(&self) -> Seq<T> {
        self.inner@
    }
}

impl<T> FixedCapacityQueue<T> {
    /// Well-formedness of the underlying queue.
    pub closed spec fn wf(&self) -> bool {
        self.inner.wf()
    }

    /// The fixed maximum number of elements.
    pub closed spec fn spec_capacity(&self) -> nat {
        self.inner.spec_capacity()
    }

    /// Creates an empty queue with storage for up to `capacity` elements,
    /// where `capacity <= u32::MAX`.
    pub fn new(capacity: usize) -> (q: Self)
        requires
            capacity <= u32::MAX,
        ensures
            q.wf(),
            q@ == Seq::<T>::empty(),
            q.spec_capacity() == capacity as nat,
    {
        FixedCapacityQueue { inner: GenericQueue::new(capacity as u32) }
    }

    /// Returns the maximum number of elements the queue can hold.
    pub fn capacity(&self) -> (c: usize)
        requires
            self.wf(),
        ensures
            c == self.spec_capacity(),
    {
        self.inner.capacity()
    }

    /// Returns the current number of elements in the queue.
    pub fn len(&self) -> (n: usize)
        requires
            self.wf(),
        ensures
            n == self@.len(),
    {
        self.inner.len()
    }

    /// Returns `true` if and only if the queue doesn't contain any elements.
    pub fn is_empty(&self) -> (r: bool)
        requires
            self.wf(),
        ensures
            r == (self@.len() == 0),
    {
        self.inner.is_empty()
    }

    /// Returns `true` if and only if the queue has reached its capacity.
    pub fn is_full(&self) -> (r: bool)
        requires
            self.wf(),
        ensures
            r == (self@.len() == self.spec_capacity()),
    {
        self.inner.is_full()
    }

    /// Returns a reference to the front of the queue, or `None` if it is empty.
    pub fn front(&self) -> (r: Option<&T>)
        requires
            self.wf(),
        ensures
            r is Some <==> self@.len() > 0,
            r matches Some(e) ==> *e == self@[0],
    {
        self.inner.front()
    }

    /// Returns a mutable reference to the front of the queue, or `None` if it
    /// is empty.
    pub fn front_mut(&mut self) -> (r: Option<&mut T>)
        requires
            old(self).wf(),
        ensures
            final(self).wf(),
            final(self).spec_capacity() == old(self).spec_capacity(),
            r is Some <==> old(self)@.len() > 0,
            r matches Some(e) ==> *e == old(self)@[0] && final(self)@ =~= old(self)@.update(
                0,
                *final(e),
            ),
            r is None ==> *final(self) == *old(self),
    {
        self.inner.front_mut()
    }

    /// Returns a reference to the back of the queue, or `None` if it is empty.
    pub fn back(&self) -> (r: Option<&T>)
        requires
            self.wf(),
        ensures
            r is Some <==> self@.len() > 0,
            r matches Some(e) ==> *e == self@.last(),
    {
        self.inner.back()
    }

    /// Returns a mutable reference to the back of the queue, or `None` if it
    /// is empty.
    pub fn back_mut(&mut self) -> (r: Option<&mut T>)
        requires
            old(self).wf(),
        ensures
            final(self).wf(),
            final(self).spec_capacity() == old(self).spec_capacity(),
            r is Some <==> old(self)@.len() > 0,
            r matches Some(e) ==> *e == old(self)@.last() && final(self)@ =~= old(self)@.update(
                old(self)@.len() - 1,
                *final(e),
            ),
            r is None ==> *final(self) == *old(self),
    {
        self.inner.back_mut()
    }

    /// Returns a reference to the logical element `index` positions behind the
    /// front, or `None` if `index` is out of bounds.
    pub fn get(&self, index: usize) -> (r: Option<&T>)
        requires
            self.wf(),
        ensures
            r is Some <==> index < self@.len(),
            r matches Some(e) ==> *e == self@[index as int],
    {
        self.inner.get(index)
    }

    /// Returns a mutable reference to the logical element `index` positions
    /// behind the front, or `None` if `index` is out of bounds.
    pub fn get_mut(&mut self, index: usize) -> (r: Option<&mut T>)
        requires
            old(self).wf(),
        ensures
            final(self).wf(),
            final(self).spec_capacity() == old(self).spec_capacity(),
            r is Some <==> index < old(self)@.len(),
            r matches Some(e) ==> *e == old(self)@[index as int] && final(self)@ =~= old(
                self,
            )@.update(index as int, *final(e)),
            r is None ==> *final(self) == *old(self),
    {
        self.inner.get_mut(index)
    }

    /// Tries to push an element to the back of the queue.
    pub fn push_back(&mut self, value: T) -> (r: Result<&mut T, InsufficientCapacity>)
        requires
            old(self).wf(),
        ensures
            final(self).wf(),
            final(self).spec_capacity() == old(self).spec_capacity(),
            r is Ok <==> old(self)@.len() < old(self).spec_capacity(),
            r matches Ok(e) ==> *e == value && final(self)@ =~= old(self)@.push(*final(e)),
            r is Err ==> *final(self) == *old(self),
    {
        self.inner.push_back(value)
    }

    /// Tries to push an element to the front of the queue.
    pub fn push_front(&mut self, value: T) -> (r: Result<&mut T, InsufficientCapacity>)
        requires
            old(self).wf(),
        ensures
            final(self).wf(),
            final(self).spec_capacity() == old(self).spec_capacity(),
            r is Ok <==> old(self)@.len() < old(self).spec_capacity(),
            r matches Ok(e) ==> *e == value && final(self)@ =~= old(self)@.insert(0, *final(e)),
            r is Err ==> *final(self) == *old(self),
    {
        self.inner.push_front(value)
    }

    /// Tries to pop an element from the front of the queue.
    pub fn pop_front(&mut self) -> (r: Option<T>)
        requires
            old(self).wf(),
        ensures
            final(self).wf(),
            final(self).spec_capacity() == old(self).spec_capacity(),
            r is Some <==> old(self)@.len() > 0,
            r matches Some(e) ==> e == old(self)@[0] && final(self)@ == old(self)@.subrange(
                1,
                old(self)@.len() as int,
            ),
            r is None ==> *final(self) == *old(self),
    {
        self.inner.pop_front()
    }

    /// Tries to pop an element from the back of the queue.
    pub fn pop_back(&mut self) -> (r: Option<T>)
        requires
            old(self).wf(),
        ensures
            final(self).wf(),
            final(self).spec_capacity() == old(self).spec_capacity(),
            r is Some <==> old(self)@.len() > 0,
            r matches Some(e) ==> e == old(self)@.last() && final(self)@ == old(self)@.drop_last(),
            r is None ==> *final(self) == *old(self),
    {
        self.inner.pop_back()
    }

    /// Clears the queue, removing all values.
    pub fn clear(&mut self)
        requires
            old(self).wf(),
        ensures
            final(self).wf(),
            final(self).spec_capacity() == old(self).spec_capacity(),
            final(self)@ == Seq::<T>::empty(),
    {
        self.inner.clear()
    }
}

impl<T: Copy> FixedCapacityQueue<T> {
    /// Returns copies of the queue's contents as two contiguous runs whose
    /// concatenation is the queue in order.
    pub fn as_slices(&self) -> (r: (Vec<T>, Vec<T>))
        requires
            self.wf(),
        ensures
            r.0@ + r.1@ == self@,
    {
        self.inner.as_slices()
    }
}

} // verus!
