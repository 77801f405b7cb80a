//! A capability interface for requesting and releasing blocks of memory, with
//! one trivial implementation that forwards to the platform allocator.

use vstd::prelude::*;

verus! {

/// The ways a memory allocation can fail.
#[derive(Debug, Clone, Copy, PartialEq, Eq, Structural)]
pub enum AllocationError {
    /// Memory allocation failed due to insufficient memory.
    OutOfMemory,
    /// Memory allocation requested for zero size.
    ZeroSizeAllocation,
    /// Fatal failure inside the allocator.
    Internal,
}

/// A provider of owned blocks of memory.
///
/// A block is handed out as an owned buffer of bytes and handed back whole;
/// `align` describes the alignment the caller asked for when the block was
/// requested.
pub trait BasicAllocator {
    /// Allocates a block of `size` bytes for data aligned to `align`.
    ///
    /// Requesting zero bytes fails with `ZeroSizeAllocation`; a request the
    /// platform cannot satisfy fails with `OutOfMemory`; an allocator-specific
    /// fatal fault is reported as `Internal`.
    fn allocate(&self, size: usize, align: usize) -> (r: Result<Vec<u8>, AllocationError>)
        ensures
            size == 0 ==> r == Err::<Vec<u8>, AllocationError>(AllocationError::ZeroSizeAllocation),
            r matches Ok(block) ==> block@.len() >= size,
    ;

    /// Releases a block previously obtained from the same allocator with the
    /// same `size` and `align`.
    fn deallocate(&self, block: Vec<u8>, size: usize, align: usize);
}

/// The trivial allocator: every request is served by the platform allocator.
#[derive(Debug, Clone, Copy)]
pub struct GlobalAllocator;

impl BasicAllocator for GlobalAllocator {
    /// Returns a zeroed block of exactly `size` bytes, or `ZeroSizeAllocation`
    /// when `size == 0`; the platform allocator treats exhaustion as fatal, so
    /// `OutOfMemory` is never returned. The owned-buffer model carries no
    /// notion of addresses, so `align` records the request but guarantees
    /// nothing here.
    fn allocate(&self, size: usize, align: usize) -> (r: Result<Vec<u8>, AllocationError>)
        ensures
            size == 0 <==> r == Err::<Vec<u8>, AllocationError>(
                AllocationError::ZeroSizeAllocation,
            ),
            size != 0 ==> r is Ok,
            r matches Ok(block) ==> block@.len() == size && (forall|i: int|
                0 <= i < size ==> block@[i] == 0u8),
    {
        if size == 0 {
            return Err(AllocationError::ZeroSizeAllocation);
        }
        let mut block: Vec<u8> = Vec::new();
        let mut i: usize = 0;
        while i < size
            invariant
                i <= size,
                block@.len() == i as nat,
                forall|j: int| 0 <= j < i ==> block@[j] == 0u8,
            decreases size - i,
        {
            block.push(0);
            i = i + 1;
        }
        Ok(block)
    }

    /// Releases the block by returning it to the platform allocator.
    fn deallocate(&self, block: Vec<u8>, size: usize, align: usize) {
        let _ = block;
    }
}

impl Default for GlobalAllocator {
    fn default() -> (r: Self)
        ensures
            r == GlobalAllocator,
    {
        GlobalAllocator
    }
}

} // verus!
