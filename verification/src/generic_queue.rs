//! A fixed-capacity circular double-ended queue over a pluggable storage backend.

use vstd::prelude::*;

use crate::storage::Storage;

verus! {

/// Indicates that an operation failed because the queue would exceed its
/// maximum capacity.
#[derive(Clone, Copy, Debug, PartialEq, Eq, Structural)]
pub struct InsufficientCapacity;

/// A fixed-capacity double-ended queue over the storage backend `S`.
///
/// The live elements occupy a circular range of slots starting at
/// `front_index` and wrapping at the physical end of the storage. The capacity
/// is fixed at construction.
pub struct GenericQueue<T, S: Storage<T>> {
    /// The current number of elements in the queue.
    len: u32,
    /// The slot of the logical first element; meaningful only when `len > 0`.
    front_index: u32,
    storage: S,
    _marker: core::marker::PhantomData<T>,
}

impl<T, S: Storage<T>> View for GenericQueue<T, S> {
    type V = Seq<T>;

    closed spec fn view(&self) -> Seq<T> {
        Seq::new(self.len as nat, |k: int| self.storage.slots()[self.phys(k)]->Some_0)
    }
}

impl<T, S: Storage<T>> GenericQueue<T, S> {
    /// The fixed maximum number of elements.
    pub closed spec fn spec_capacity(&self) -> nat {
        self.storage.slots().len()
    }

    /// The slot that holds the logical element `k`, wrapping at the physical end.
    closed spec fn phys(&self, k: int) -> int {
        if self.front_index + k < self.spec_capacity() {
            self.front_index + k
        } else {
            self.front_index + k - self.spec_capacity()
        }
    }

    /// How far around the circle slot `j` lies from the front.
    closed spec fn offset_of(&self, j: int) -> int {
        if j >= self.front_index {
            j - self.front_index
        } else {
            j + self.spec_capacity() - self.front_index
        }
    }

    /// Well-formedness: exactly the circular range `[front_index, front_index + len)`
    /// (modulo capacity) is initialized.
    pub closed spec fn wf(&self) -> bool {
        &&& self.storage.inv()
        &&& self.len as nat <= self.spec_capacity()
        &&& if self.spec_capacity() > 0 {
            (self.front_index as nat) < self.spec_capacity()
        } else {
            self.front_index == 0
        }
        &&& forall|j: int|
            0 <= j < self.spec_capacity() ==> (#[trigger] self.storage.slots()[j] is Some
                <==> self.offset_of(j) < self.len)
    }

    /// Creates an empty queue with the given capacity.
    pub fn new(capacity: u32) -> (q: Self)
        requires
            S::valid_capacity(capacity),
        ensures
            q.wf(),
            q@ == Seq::<T>::empty(),
            q.spec_capacity() == capacity as nat,
    {
        let q = GenericQueue {
            len: 0,
            front_index: 0,
            storage: S::new(capacity),
            _marker: core::marker::PhantomData,
        };
        proof {
            assert(q@ =~= Seq::<T>::empty());
        }
        q
    }

    /// Returns the maximum number of elements the queue can hold.
    pub fn capacity(&self) -> (c: usize)
        requires
            self.wf(),
        ensures
            c == self.spec_capacity(),
    {
        self.storage.capacity() as usize
    }

    /// Returns the current number of elements in the queue.
    pub fn len(&self) -> (n: usize)
        requires
            self.wf(),
        ensures
            n == self@.len(),
    {
        self.len as usize
    }

    /// Returns `true` if and only if the queue doesn't contain any elements.
    pub fn is_empty(&self) -> (r: bool)
        requires
            self.wf(),
        ensures
            r == (self@.len() == 0),
    {
        self.len == 0
    }

    /// Returns `true` if and only if the queue has reached its capacity.
    pub fn is_full(&self) -> (r: bool)
        requires
            self.wf(),
        ensures
            r == (self@.len() == self.spec_capacity()),
    {
        let c = self.storage.capacity();
        self.len == c
    }

    /// Returns a reference to the front of the queue (the element which would
    /// be returned by `pop_front`), or `None` if the queue is empty.
    pub fn front(&self) -> (r: Option<&T>)
        requires
            self.wf(),
        ensures
            r is Some <==> self@.len() > 0,
            r matches Some(e) ==> *e == self@[0],
    {
        if self.len > 0 {
            match self.storage.element(self.front_index) {
                Some(e) => Some(e),
                None => unreached(),
            }
        } else {
            None
        }
    }

    /// Returns a mutable reference to the front of the queue (the element which
    /// would be returned by `pop_front`), or `None` if the queue is empty.
    pub fn front_mut(&mut self) -> (r: Option<&mut T>)
        requires
            old(self).wf(),
        ensures
            final(self).wf(),
            final(self).spec_capacity() == old(self).spec_capacity(),
            r is Some <==> old(self)@.len() > 0,
            r matches Some(e) ==> *e == old(self)@[0] && final(self)@ =~= old(self)@.update(
                0,
                *final(e),
            ),
            r is None ==> *final(self) == *old(self),
    {
        if self.len > 0 {
            let slot = self.storage.element_mut(self.front_index);
            match slot {
                Some(e) => Some(e),
                None => unreached(),
            }
        } else {
            None
        }
    }

    /// Returns a reference to the back of the queue (the element which would be
    /// returned by `pop_back`), or `None` if the queue is empty.
    pub fn back(&self) -> (r: Option<&T>)
        requires
            self.wf(),
        ensures
            r is Some <==> self@.len() > 0,
            r matches Some(e) ==> *e == self@.last(),
    {
        match self.back_index() {
            Some(back_index) => match self.storage.element(back_index) {
                Some(e) => Some(e),
                None => unreached(),
            },
            None => None,
        }
    }

    /// Returns a mutable reference to the back of the queue (the element which
    /// would be returned by `pop_back`), or `None` if the queue is empty.
    pub fn back_mut(&mut self) -> (r: Option<&mut T>)
        requires
            old(self).wf(),
        ensures
            final(self).wf(),
            final(self).spec_capacity() == old(self).spec_capacity(),
            r is Some <==> old(self)@.len() > 0,
            r matches Some(e) ==> *e == old(self)@.last() && final(self)@ =~= old(self)@.update(
                old(self)@.len() - 1,
                *final(e),
            ),
            r is None ==> *final(self) == *old(self),
    {
        match self.back_index() {
            Some(back_index) => {
                let slot = self.storage.element_mut(back_index);
                match slot {
                    Some(e) => Some(e),
                    None => unreached(),
                }
            },
            None => None,
        }
    }

    /// Returns a reference to the logical element `index` positions behind the
    /// front, or `None` if `index` is out of bounds.
    pub fn get(&self, index: usize) -> (r: Option<&T>)
        requires
            self.wf(),
        ensures
            r is Some <==> index < self@.len(),
            r matches Some(e) ==> *e == self@[index as int],
    {
        if index < self.len as usize {
            let capacity = self.storage.capacity();
            let wide: u64 = self.front_index as u64 + index as u64;
            let pos: u32 = if wide < capacity as u64 {
                wide as u32
            } else {
                (wide - capacity as u64) as u32
            };
            match self.storage.element(pos) {
                Some(e) => Some(e),
                None => unreached(),
            }
        } else {
            None
        }
    }

    /// Returns a mutable reference to the logical element `index` positions
    /// behind the front, or `None` if `index` is out of bounds.
    pub fn get_mut(&mut self, index: usize) -> (r: Option<&mut T>)
        requires
            old(self).wf(),
        ensures
            final(self).wf(),
            final(self).spec_capacity() == old(self).spec_capacity(),
            r is Some <==> index < old(self)@.len(),
            r matches Some(e) ==> *e == old(self)@[index as int] && final(self)@ =~= old(
                self,
            )@.update(index as int, *final(e)),
            r is None ==> *final(self) == *old(self),
    {
        if index < self.len as usize {
            let capacity = self.storage.capacity();
            let wide: u64 = self.front_index as u64 + index as u64;
            let pos: u32 = if wide < capacity as u64 {
                wide as u32
            } else {
                (wide - capacity as u64) as u32
            };
            let slot = self.storage.element_mut(pos);
            match slot {
                Some(e) => Some(e),
                None => unreached(),
            }
        } else {
            None
        }
    }

    /// Tries to push an element to the back of the queue.
    ///
    /// If the queue has spare capacity, the push succeeds and a reference to
    /// the written slot is returned; otherwise `Err(InsufficientCapacity)` is
    /// returned and the queue is unchanged.
    pub fn push_back(&mut self, value: T) -> (r: Result<&mut T, InsufficientCapacity>)
        requires
            old(self).wf(),
        ensures
            final(self).wf(),
            final(self).spec_capacity() == old(self).spec_capacity(),
            r is Ok <==> old(self)@.len() < old(self).spec_capacity(),
            r matches Ok(e) ==> *e == value && final(self)@ =~= old(self)@.push(*final(e)),
            r is Err ==> *final(self) == *old(self),
    {
        let capacity = self.storage.capacity();
        if self.len < capacity {
            let wide: u64 = self.front_index as u64 + self.len as u64;
            let write_pos: u32 = if wide < capacity as u64 {
                wide as u32
            } else {
                (wide - capacity as u64) as u32
            };
            self.len = self.len + 1;
            let slot = self.storage.element_mut(write_pos);
            *slot = Some(value);
            match slot {
                Some(element) => Ok(element),
                None => unreached(),
            }
        } else {
            Err(InsufficientCapacity)
        }
    }

    /// Tries to push an element to the front of the queue.
    ///
    /// If the queue has spare capacity, the push succeeds and a reference to
    /// the written slot is returned; otherwise `Err(InsufficientCapacity)` is
    /// returned and the queue is unchanged.
    pub fn push_front(&mut self, value: T) -> (r: Result<&mut T, InsufficientCapacity>)
        requires
            old(self).wf(),
        ensures
            final(self).wf(),
            final(self).spec_capacity() == old(self).spec_capacity(),
            r is Ok <==> old(self)@.len() < old(self).spec_capacity(),
            r matches Ok(e) ==> *e == value && final(self)@ =~= old(self)@.insert(0, *final(e)),
            r is Err ==> *final(self) == *old(self),
    {
        let capacity = self.storage.capacity();
        if self.len < capacity {
            let write_pos: u32 = if self.front_index > 0 {
                self.front_index - 1
            } else {
                capacity - 1
            };
            self.len = self.len + 1;
            self.front_index = write_pos;
            let slot = self.storage.element_mut(write_pos);
            *slot = Some(value);
            match slot {
                Some(element) => Ok(element),
                None => unreached(),
            }
        } else {
            Err(InsufficientCapacity)
        }
    }

    /// Tries to pop an element from the front of the queue.
    ///
    /// If the queue has at least one element, the pop succeeds; otherwise
    /// `None` is returned and the queue is unchanged.
    pub fn pop_front(&mut self) -> (r: Option<T>)
        requires
            old(self).wf(),
        ensures
            final(self).wf(),
            final(self).spec_capacity() == old(self).spec_capacity(),
            r is Some <==> old(self)@.len() > 0,
            r matches Some(e) ==> e == old(self)@[0] && final(self)@ == old(self)@.subrange(
                1,
                old(self)@.len() as int,
            ),
            r is None ==> *final(self) == *old(self),
    {
        if self.len > 0 {
            let capacity = self.storage.capacity();
            let slot = self.storage.element_mut(self.front_index);
            let element = slot.take();
            self.len = self.len - 1;
            if self.front_index < capacity - 1 {
                self.front_index = self.front_index + 1;
            } else {
                self.front_index = 0;
            }
            proof {
                assert(self@ =~= old(self)@.subrange(1, old(self)@.len() as int));
            }
            element
        } else {
            None
        }
    }

    /// Tries to pop an element from the back of the queue.
    ///
    /// If the queue has at least one element, the pop succeeds; otherwise
    /// `None` is returned and the queue is unchanged.
    pub fn pop_back(&mut self) -> (r: Option<T>)
        requires
            old(self).wf(),
        ensures
            final(self).wf(),
            final(self).spec_capacity() == old(self).spec_capacity(),
            r is Some <==> old(self)@.len() > 0,
            r matches Some(e) ==> e == old(self)@.last() && final(self)@ == old(self)@.drop_last(),
            r is None ==> *final(self) == *old(self),
    {
        match self.back_index() {
            Some(read_pos) => {
                let slot = self.storage.element_mut(read_pos);
                let element = slot.take();
                self.len = self.len - 1;
                proof {
                    assert(self@ =~= old(self)@.drop_last());
                }
                element
            },
            None => None,
        }
    }

    /// Clears the queue, removing all values.
    ///
    /// The queue is marked empty before the formerly-live elements are
    /// destroyed, so a partial failure can never lead to a second destruction.
    pub fn clear(&mut self)
        requires
            old(self).wf(),
        ensures
            final(self).wf(),
            final(self).spec_capacity() == old(self).spec_capacity(),
            final(self)@ == Seq::<T>::empty(),
    {
        let len = self.len;
        let front = self.front_index;
        let capacity = self.storage.capacity();
        self.len = 0;
        self.front_index = 0;
        let mut k: u32 = 0;
        while k < len
            invariant
                k <= len,
                self.len == 0,
                self.front_index == 0,
                self.storage.inv(),
                self.storage.slots().len() == capacity as nat,
                len <= capacity,
                capacity > 0 ==> front < capacity,
                forall|j: int|
                    0 <= j < capacity ==> (#[trigger] self.storage.slots()[j] is Some <==> k <= (
                    if j >= front {
                        j - front
                    } else {
                        j + capacity - front
                    }) < len),
            decreases len - k,
        {
            let wide: u64 = front as u64 + k as u64;
            let pos: u32 = if wide < capacity as u64 {
                wide as u32
            } else {
                (wide - capacity as u64) as u32
            };
            let slot = self.storage.element_mut(pos);
            let _ = slot.take();
            k = k + 1;
        }
        proof {
            assert(self@ =~= Seq::<T>::empty());
        }
    }

    /// Returns the slot of the last element (the one which would be returned by
    /// `pop_back`), or `None` if the queue is empty.
    fn back_index(&self) -> (r: Option<u32>)
        requires
            self.wf(),
        ensures
            r is Some <==> self@.len() > 0,
            r matches Some(i) ==> i == self.phys(self@.len() - 1),
    {
        if self.len > 0 {
            let capacity: u64 = self.storage.capacity() as u64;
            let read_pos: u64 = self.front_index as u64 + (self.len as u64 - 1);
            if read_pos < capacity {
                Some(read_pos as u32)
            } else {
                Some((read_pos - capacity) as u32)
            }
        } else {
            None
        }
    }
}

impl<T: Copy, S: Storage<T>> GenericQueue<T, S> {
    /// Returns copies of the queue's contents as two contiguous runs whose
    /// concatenation is the queue in order (the buffer wraps at the physical
    /// end). The caller should not assume anything about the distribution of
    /// the elements between the two runs, except for ordering; in particular,
    /// the first run may be empty even though the second isn't.
    pub fn as_slices(&self) -> (r: (Vec<T>, Vec<T>))
        requires
            self.wf(),
        ensures
            r.0@ + r.1@ == self@,
    {
        let capacity = self.storage.capacity();
        let first_len: u32 = if (self.len as u64) <= (capacity as u64 - self.front_index as u64) {
            self.len
        } else {
            capacity - self.front_index
        };
        let mut first: Vec<T> = Vec::new();
        let mut k: u32 = 0;
        while k < first_len
            invariant
                self.wf(),
                self.spec_capacity() == capacity as nat,
                k <= first_len,
                first_len <= self.len,
                self.front_index as nat + first_len as nat <= self.spec_capacity(),
                first@.len() == k as nat,
                forall|i: int| 0 <= i < k ==> first@[i] == self@[i],
            decreases first_len - k,
        {
            match self.storage.element(self.front_index + k) {
                Some(e) => first.push(*e),
                None => unreached(),
            }
            k = k + 1;
        }
        let mut second: Vec<T> = Vec::new();
        let mut k2: u32 = 0;
        let second_len: u32 = self.len - first_len;
        while k2 < second_len
            invariant
                self.wf(),
                self.spec_capacity() == capacity as nat,
                k2 <= second_len,
                first_len as nat + second_len as nat == self@.len(),
                self.front_index as nat + first_len as nat <= self.spec_capacity(),
                second_len as nat <= self.spec_capacity(),
                first_len < self.len ==> self.front_index as nat + first_len as nat
                    == self.spec_capacity(),
                second@.len() == k2 as nat,
                forall|i: int| 0 <= i < k2 ==> second@[i] == self@[first_len + i],
            decreases second_len - k2,
        {
            match self.storage.element(k2) {
                Some(e) => second.push(*e),
                None => unreached(),
            }
            k2 = k2 + 1;
        }
        proof {
            assert(first@ + second@ =~= self@);
        }
        (first, second)
    }
}

} // verus!
