//! A stack-discipline, fixed-capacity sequence over a pluggable storage backend.

use vstd::prelude::*;

use crate::storage::Storage;

verus! {

/// Indicates that an operation failed because the vector would exceed its
/// maximum capacity.
#[derive(Clone, Copy, Default, Debug, PartialEq, Eq, Structural)]
pub struct VectorFull;

/// A fixed-capacity vector over the storage backend `S`.
///
/// The elements at indices `[0, len)` of the storage are initialized; the
/// remaining slots are not. The capacity is fixed at construction.
pub struct GenericVec<T, S: Storage<T>> {
    len: u32,
    storage: S,
    _marker: core::marker::PhantomData<T>,
}

impl<T, S: Storage<T>> View for GenericVec<T, S> {
    type V = Seq<T>;

    closed spec fn view(&self) -> Seq<T> {
        Seq::new(self.len as nat, |i: int| self.storage.slots()[i]->Some_0)
    }
}

impl<T, S: Storage<T>> GenericVec<T, S> {
    /// Well-formedness: the live prefix is initialized, the rest is not.
    pub closed spec fn wf(&self) -> bool {
        &&& self.storage.inv()
        &&& self.len as nat <= self.storage.slots().len()
        &&& forall|i: int| 0 <= i < self.len ==> self.storage.slots()[i] is Some
        &&& forall|i: int|
            self.len <= i < self.storage.slots().len() ==> self.storage.slots()[i] is None
    }

    /// The fixed maximum number of elements.
    pub closed spec fn spec_capacity(&self) -> nat {
        self.storage.slots().len()
    }

    /// Creates an empty vector with the given capacity.
    pub fn new(capacity: u32) -> (v: Self)
        requires
            S::valid_capacity(capacity),
        ensures
            v.wf(),
            v@ == Seq::<T>::empty(),
            v.spec_capacity() == capacity as nat,
    {
        let v = GenericVec { len: 0, storage: S::new(capacity), _marker: core::marker::PhantomData };
        proof {
            assert(v@ =~= Seq::<T>::empty());
        }
        v
    }

    /// Tries to create an empty vector with the given capacity; `None` exactly
    /// when the storage backend does not support that capacity.
    pub fn try_new(capacity: u32) -> (r: Option<Self>)
        ensures
            r is Some <==> S::valid_capacity(capacity),
            r matches Some(v) ==> v.wf() && v@ == Seq::<T>::empty() && v.spec_capacity()
                == capacity as nat,
    {
        match S::try_new(capacity) {
            Some(storage) => {
                let v = GenericVec { len: 0, storage, _marker: core::marker::PhantomData };
                proof {
                    assert(v@ =~= Seq::<T>::empty());
                }
                Some(v)
            },
            None => None,
        }
    }

    /// Returns the maximum number of elements the vector can hold.
    pub fn capacity(&self) -> (c: usize)
        requires
            self.wf(),
        ensures
            c == self.spec_capacity(),
    {
        self.storage.capacity() as usize
    }

    /// Returns the current number of elements in the vector.
    pub fn len(&self) -> (n: usize)
        requires
            self.wf(),
        ensures
            n == self@.len(),
    {
        self.len as usize
    }

    /// Returns `true` if and only if the vector doesn't contain any elements.
    pub fn is_empty(&self) -> (r: bool)
        requires
            self.wf(),
        ensures
            r == (self@.len() == 0),
    {
        self.len == 0
    }

    /// Returns `true` if and only if the vector has reached its capacity.
    pub fn is_full(&self) -> (r: bool)
        requires
            self.wf(),
        ensures
            r == (self@.len() == self.spec_capacity()),
    {
        let c = self.storage.capacity();
        self.len == c
    }

    /// Tries to push an element to the back of the vector.
    ///
    /// If the vector has spare capacity, the push succeeds and a reference to
    /// the written slot is returned; otherwise `Err(VectorFull)` is returned
    /// and the vector is unchanged.
    pub fn push(&mut self, value: T) -> (r: Result<&mut T, VectorFull>)
        requires
            old(self).wf(),
        ensures
            final(self).wf(),
            final(self).spec_capacity() == old(self).spec_capacity(),
            r is Ok <==> old(self)@.len() < old(self).spec_capacity(),
            r matches Ok(e) ==> *e == value && final(self)@ =~= old(self)@.push(*final(e)),
            r is Err ==> *final(self) == *old(self),
    {
        let capacity = self.storage.capacity();
        if self.len < capacity {
            let write_pos = self.len;
            self.len = self.len + 1;
            let slot = self.storage.element_mut(write_pos);
            *slot = Some(value);
            match slot {
                Some(element) => Ok(element),
                None => unreached(),
            }
        } else {
            Err(VectorFull)
        }
    }

    /// Tries to pop an element from the back of the vector.
    ///
    /// If the vector has at least one element, the pop succeeds; otherwise
    /// `None` is returned and the vector is unchanged.
    pub fn pop(&mut self) -> (r: Option<T>)
        requires
            old(self).wf(),
        ensures
            final(self).wf(),
            final(self).spec_capacity() == old(self).spec_capacity(),
            r is Some <==> old(self)@.len() > 0,
            r matches Some(e) ==> e == old(self)@.last() && final(self)@ == old(self)@.drop_last(),
            r is None ==> *final(self) == *old(self),
    {
        if self.len > 0 {
            let read_pos = self.len - 1;
            let slot = self.storage.element_mut(read_pos);
            let element = slot.take();
            self.len = self.len - 1;
            proof {
                assert(self@ =~= old(self)@.drop_last());
            }
            element
        } else {
            None
        }
    }

    /// Returns a reference to the element at `index`, or `None` if `index` is
    /// out of bounds.
    pub fn get(&self, index: usize) -> (r: Option<&T>)
        requires
            self.wf(),
        ensures
            r is Some <==> index < self@.len(),
            r matches Some(e) ==> *e == self@[index as int],
    {
        if index < self.len as usize {
            match self.storage.element(index as u32) {
                Some(e) => Some(e),
                None => unreached(),
            }
        } else {
            None
        }
    }

    /// Returns a mutable reference to the element at `index`, or `None` if
    /// `index` is out of bounds.
    pub fn get_mut(&mut self, index: usize) -> (r: Option<&mut T>)
        requires
            old(self).wf(),
        ensures
            final(self).wf(),
            final(self).spec_capacity() == old(self).spec_capacity(),
            r is Some <==> index < old(self)@.len(),
            r matches Some(e) ==> *e == old(self)@[index as int] && final(self)@ =~= old(
                self,
            )@.update(index as int, *final(e)),
            r is None ==> *final(self) == *old(self),
    {
        if index < self.len as usize {
            let slot = self.storage.element_mut(index as u32);
            match slot {
                Some(e) => Some(e),
                None => unreached(),
            }
        } else {
            None
        }
    }

    /// Clears the vector, removing all values.
    ///
    /// The vector is marked empty before the formerly-live elements are
    /// destroyed, so a partial failure can never lead to a second destruction.
    pub fn clear(&mut self)
        requires
            old(self).wf(),
        ensures
            final(self).wf(),
            final(self).spec_capacity() == old(self).spec_capacity(),
            final(self)@ == Seq::<T>::empty(),
    {
        let len = self.len;
        self.len = 0;
        let mut i: u32 = 0;
        while i < len
            invariant
                i <= len,
                self.len == 0,
                self.storage.inv(),
                self.storage.slots().len() == old(self).spec_capacity(),
                len as nat <= self.storage.slots().len(),
                forall|j: int| 0 <= j < i ==> self.storage.slots()[j] is None,
                forall|j: int|
                    len <= j < self.storage.slots().len() ==> self.storage.slots()[j] is None,
            decreases len - i,
        {
            let slot = self.storage.element_mut(i);
            let _ = slot.take();
            i = i + 1;
        }
        proof {
            assert(self@ =~= Seq::<T>::empty());
        }
    }
}

impl<T: Copy, S: Storage<T>> GenericVec<T, S> {
    /// Returns a copy of the entire contents, in order.
    pub fn as_slice(&self) -> (r: Vec<T>)
        requires
            self.wf(),
        ensures
            r@ == self@,
    {
        let mut out: Vec<T> = Vec::new();
        let mut i: u32 = 0;
        while i < self.len
            invariant
                self.wf(),
                i <= self.len,
                out@.len() == i as nat,
                forall|j: int| 0 <= j < i ==> out@[j] == self@[j],
            decreases self.len - i,
        {
            match self.storage.element(i) {
                Some(e) => out.push(*e),
                None => unreached(),
            }
            i = i + 1;
        }
        proof {
            assert(out@ =~= self@);
        }
        out
    }
}

} // verus!
