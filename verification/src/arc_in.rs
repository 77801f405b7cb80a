//! A reference-counted shared-ownership pointer carrying an allocator handle.

use vstd::prelude::*;

use crate::allocator::BasicAllocator;

verus! {

/// Relies on std's `Arc::clone`: the new handle points to the same allocation,
/// so it carries the same value; the strong count is incremented.
#[verifier::external_body]
fn arc_clone<T>(arc: &std::sync::Arc<T>) -> (r: std::sync::Arc<T>)
    ensures
        r == *arc,
{
    std::sync::Arc::clone(arc)
}

/// Relies on std's `Arc` deref: the reference points at the shared value.
#[verifier::external_body]
pub(crate) fn arc_get<T>(arc: &std::sync::Arc<T>) -> (r: &T)
    ensures
        *r == **arc,
{
    &**arc
}

/// Relies on std's `Arc::strong_count`: the number of strong pointers to the
/// allocation. The handle passed in is itself alive, so the count is at least
/// one; the exact value depends on how many handles are alive across the
/// whole process, which a single handle cannot pin down.
#[verifier::external_body]
fn arc_strong_count<T>(arc: &std::sync::Arc<T>) -> (r: usize)
    ensures
        r >= 1,
{
    std::sync::Arc::strong_count(arc)
}

/// A reference-counted smart pointer with allocator-handle support, like
/// `std::sync::Arc`. `ArcIn` provides shared ownership of a value of type `T`.
/// Cloning an `ArcIn` increases the reference count, and when the last `ArcIn`
/// pointing to the same value is dropped, the value is destroyed and its
/// backing memory released.
///
/// Each handle carries its own copy of the allocator handle `A`, which
/// travels with every clone. The shared block itself lives in a platform
/// allocation managed through `std::sync::Arc`: placing it by hand would take
/// raw-pointer code that this crate does not admit. This type does not
/// provide weak references.
pub struct ArcIn<T, A: BasicAllocator> {
    inner: std::sync::Arc<T>,
    alloc: A,
}

impl<T, A: BasicAllocator> ArcIn<T, A> {
    /// The shared value.
    pub closed spec fn value(&self) -> T {
        *self.inner
    }

    /// Returns a reference to the shared value.
    pub fn get(&self) -> (r: &T)
        ensures
            *r == self.value(),
    {
        arc_get(&self.inner)
    }
}

impl<T, A: BasicAllocator + Clone> ArcIn<T, A> {
    /// Creates a new `ArcIn` holding `data`, carrying the given allocator handle.
    pub fn new_in(data: T, alloc: A) -> (r: Self)
        ensures
            r.value() == data,
    {
        ArcIn { inner: std::sync::Arc::new(data), alloc }
    }

    /// Returns the strong reference count: the number of live handles to the
    /// same shared value. `this` itself is one, so the count is at least one.
    pub fn strong_count(this: &Self) -> (r: usize)
        ensures
            r >= 1,
    {
        arc_strong_count(&this.inner)
    }
}

impl<T, A: BasicAllocator + Clone> Clone for ArcIn<T, A> {
    /// Returns a new handle to the same shared value, incrementing the strong
    /// reference count.
    fn clone(&self) -> (r: Self)
        ensures
            r.value() == self.value(),
    {
        ArcIn { inner: arc_clone(&self.inner), alloc: self.alloc.clone() }
    }
}

impl<T: Default, A: BasicAllocator + Clone + Default> Default for ArcIn<T, A> {
    fn default() -> (r: Self)
        ensures
            T::default.ensures((), r.value()),
    {
        ArcIn::new_in(T::default(), A::default())
    }
}

} // verus!
