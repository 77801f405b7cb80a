//! Interface abstracting over element storage kinds.
//!
//! A storage owns a block of `capacity()` element slots, each independently
//! initialized (`Some`) or uninitialized (`None`). Containers built on top of
//! it keep track of which slots hold live elements.

use vstd::prelude::*;

verus! {

/// A block of possibly-uninitialized element slots, fixed in size at construction.
///
/// The slots are modelled as a sequence of `Option<T>`: `None` stands for an
/// uninitialized slot. Accessing a slot outside `[0, capacity())` is forbidden
/// by contract.
pub trait Storage<T>: Sized {
    /// The current contents of every slot, initialized or not.
    spec fn slots(&self) -> Seq<Option<T>>;

    /// Well-formedness of the storage itself; established by the constructors
    /// and preserved by every operation.
    spec fn inv(&self) -> bool;

    /// Whether a storage of this kind can be constructed with the given capacity.
    spec fn valid_capacity(capacity: u32) -> bool;

    /// Creates a new instance with enough capacity for the given number of
    /// elements, all of them uninitialized.
    fn new(capacity: u32) -> (s: Self)
        requires
            Self::valid_capacity(capacity),
        ensures
            s.inv(),
            s.slots().len() == capacity as nat,
            forall|i: int| 0 <= i < capacity ==> s.slots()[i] is None,
    ;

    /// Tries to create a new instance with enough capacity for the given number
    /// of elements; `None` exactly when the capacity is not one this storage
    /// kind supports.
    fn try_new(capacity: u32) -> (r: Option<Self>)
        ensures
            r is Some <==> Self::valid_capacity(capacity),
            r matches Some(s) ==> s.inv() && s.slots().len() == capacity as nat && (forall|i: int|
                0 <= i < capacity ==> s.slots()[i] is None),
    ;

    /// Returns the allocated capacity.
    fn capacity(&self) -> (c: u32)
        requires
            self.inv(),
        ensures
            c as nat == self.slots().len(),
    ;

    /// Returns a reference to a specific slot, which isn't necessarily initialized.
    fn element(&self, index: u32) -> (r: &Option<T>)
        requires
            self.inv(),
            (index as int) < self.slots().len(),
        ensures
            *r == self.slots()[index as int],
    ;

    /// Returns a mutable reference to a specific slot, which isn't necessarily
    /// initialized. The caller may fill, empty or overwrite the slot through it.
    fn element_mut(&mut self, index: u32) -> (r: &mut Option<T>)
        requires
            old(self).inv(),
            (index as int) < old(self).slots().len(),
        ensures
            final(self).inv(),
            *r == old(self).slots()[index as int],
            final(self).slots() == old(self).slots().update(index as int, *final(r)),
    ;
}

} // verus!
