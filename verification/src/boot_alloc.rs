//! Early-boot allocation stubs.
//!
//! At this boot stage no heap exists yet, so the placeholder allocator fails
//! every request, and an allocation failure is recorded as a diagnostic
//! fault for the (out-of-scope) fault-handling stage to report before
//! halting.

use vstd::prelude::*;

verus! {

/// Placeholder allocator of the early boot stage: it owns no memory, so
/// every request fails.
pub struct DummyAlloc;

impl DummyAlloc {
    /// Always fails: there is no heap to serve from this early in boot.
    pub fn allocate(&self, _size: usize, _align: usize) -> (r: Option<usize>)
        ensures
            r is None,
    {
        Option::None
    }
}

/// Diagnostic record of a failed allocation.
pub struct AllocFault {
    /// Requested size in bytes.
    pub size: usize,
    /// Requested alignment in bytes.
    pub align: usize,
}

/// Record the allocation failure the boot stage is about to halt on, so the
/// fault stage can report it.
pub fn alloc_error_handler(size: usize, align: usize) -> (r: AllocFault)
    ensures
        r.size == size,
        r.align == align,
{
    AllocFault { size, align }
}

} // verus!
