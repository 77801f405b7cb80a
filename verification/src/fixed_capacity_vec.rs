//! A fixed-capacity vector backed by one heap allocation.

use vstd::prelude::*;

use crate::generic_vec::{GenericVec, VectorFull};
use crate::heap::Heap;

verus! {

/// A fixed-capacity vector.
///
/// The vector can hold between 0 and `capacity` elements, and behaves
/// similarly to `Vec`, except that it acquires its storage immediately on
/// construction and can't shrink or grow.
pub struct FixedCapacityVec<T> {
    inner: GenericVec<T, Heap<T>>,
}

impl<T> View for FixedCapacityVec<T> {
    type V = Seq<T>;

    closed spec fn view(&self) -> Seq<T> {
        self.inner@
    }
}

impl<T> FixedCapacityVec<T> {
    /// Well-formedness of the underlying vector.
    pub closed spec fn wf(&self) -> bool {
        self.inner.wf()
    }

    /// The fixed maximum number of elements.
    pub closed spec fn spec_capacity(&self) -> nat {
        self.inner.spec_capacity()
    }

    /// Creates an empty vector with storage for up to `capacity` elements,
    /// where `capacity <= u32::MAX`.
    pub fn new(capacity: usize) -> (v: Self)
        requires
            capacity <= u32::MAX,
        ensures
            v.wf(),
            v@ == Seq::<T>::empty(),
            v.spec_capacity() == capacity as nat,
    {
        FixedCapacityVec { inner: GenericVec::new(capacity as u32) }
    }

    /// Tries to create an empty vector for up to `capacity` elements;
    /// `None` exactly when `capacity > u32::MAX`.
    pub fn try_new(capacity: usize) -> (r: Option<Self>)
        ensures
            r is Some <==> capacity <= u32::MAX,
            r matches Some(v) ==> v.wf() && v@ == Seq::<T>::empty() && v.spec_capacity()
                == capacity as nat,
    {
        if capacity <= u32::MAX as usize {
            match GenericVec::try_new(capacity as u32) {
                Some(inner) => Some(FixedCapacityVec { inner }),
                None => unreached(),
            }
        } else {
            None
        }
    }

    /// Returns the maximum number of elements the vector can hold.
    pub fn capacity(&self) -> (c: usize)
        requires
            self.wf(),
        ensures
            c == self.spec_capacity(),
    {
        self.inner.capacity()
    }

    /// Returns the current number of elements in the vector.
    pub fn len(&self) -> (n: usize)
        requires
            self.wf(),
        ensures
            n == self@.len(),
    {
        self.inner.len()
    }

    /// Returns `true` if and only if the vector doesn't contain any elements.
    pub fn is_empty(&self) -> (r: bool)
        requires
            self.wf(),
        ensures
            r == (self@.len() == 0),
    {
        self.inner.is_empty()
    }

    /// Returns `true` if and only if the vector has reached its capacity.
    pub fn is_full(&self) -> (r: bool)
        requires
            self.wf(),
        ensures
            r == (self@.len() == self.spec_capacity()),
    {
        self.inner.is_full()
    }

    /// Tries to push an element to the back of the vector.
    ///
    /// If the vector has spare capacity, the push succeeds and a reference to
    /// the written slot is returned; otherwise `Err(VectorFull)` is returned
    /// and the vector is unchanged.
    pub fn push(&mut self, value: T) -> (r: Result<&mut T, VectorFull>)
        requires
            old(self).wf(),
        ensures
            final(self).wf(),
            final(self).spec_capacity() == old(self).spec_capacity(),
            r is Ok <==> old(self)@.len() < old(self).spec_capacity(),
            r matches Ok(e) ==> *e == value && final(self)@ =~= old(self)@.push(*final(e)),
            r is Err ==> *final(self) == *old(self),
    {
        self.inner.push(value)
    }

    /// Tries to pop an element from the back of the vector.
    ///
    /// If the vector has at least one element, the pop succeeds; otherwise
    /// `None` is returned and the vector is unchanged.
    pub fn pop(&mut self) -> (r: Option<T>)
        requires
            old(self).wf(),
        ensures
            final(self).wf(),
            final(self).spec_capacity() == old(self).spec_capacity(),
            r is Some <==> old(self)@.len() > 0,
            r matches Some(e) ==> e == old(self)@.last() && final(self)@ == old(self)@.drop_last(),
            r is None ==> *final(self) == *old(self),
    {
        self.inner.pop()
    }

    /// Returns a reference to the element at `index`, or `None` if `index` is
    /// out of bounds.
    pub fn get(&self, index: usize) -> (r: Option<&T>)
        requires
            self.wf(),
        ensures
            r is Some <==> index < self@.len(),
            r matches Some(e) ==> *e == self@[index as int],
    {
        self.inner.get(index)
    }

    /// Returns a mutable reference to the element at `index`, or `None` if
    /// `index` is out of bounds.
    pub fn get_mut(&mut self, index: usize) -> (r: Option<&mut T>)
        requires
            old(self).wf(),
        ensures
            final(self).wf(),
            final(self).spec_capacity() == old(self).spec_capacity(),
            r is Some <==> index < old(self)@.len(),
            r matches Some(e) ==> *e == old(self)@[index as int] && final(self)@ =~= old(
                self,
            )@.update(index as int, *final(e)),
            r is None ==> *final(self) == *old(self),
    {
        self.inner.get_mut(index)
    }

    /// Clears the vector, removing all values.
    pub fn clear(&mut self)
        requires
            old(self).wf(),
        ensures
            final(self).wf(),
            final(self).spec_capacity() == old(self).spec_capacity(),
            final(self)@ == Seq::<T>::empty(),
    {
        self.inner.clear()
    }
}

impl<T: Copy> FixedCapacityVec<T> {
    /// Returns a copy of the entire contents, in order.
    pub fn as_slice(&self) -> (r: Vec<T>)
        requires
            self.wf(),
        ensures
            r@ == self@,
    {
        self.inner.as_slice()
    }
}

} // verus!
