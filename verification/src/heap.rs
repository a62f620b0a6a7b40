//! One-time bootstrap of the fixed-size heap that backs crypto routines.
//!
//! The device reserves a 10 KiB region in static storage and hands it to
//! the allocator exactly once, before any heap user runs. Initialising a
//! second time is a programming error; the model below makes that error a
//! precondition failure, and offers a checked variant that reports it as
//! a value instead.

use vstd::prelude::*;

verus! {

/// Size in bytes of the statically reserved heap region.
pub const HEAP_BYTES: usize = 10 * 1024;

/// Error returned by the checked initialisation path.
#[derive(Clone, Copy, PartialEq, Eq, Structural, Debug)]
pub enum HeapError {
    /// The heap was already initialised; a second initialisation is refused.
    AlreadyInitialized,
}

/// Bookkeeping for the one-shot heap bootstrap.
///
/// `initialized` records whether the backing region has been handed to
/// the allocator; `size` is the byte count it was handed with.
pub struct HeapCell {
    pub initialized: bool,
    pub size: usize,
}

impl HeapCell {
    /// A fresh, uninitialised heap.
    pub fn new() -> (h: HeapCell)
        ensures
            !h.initialized,
            h.size == 0,
    {
        HeapCell { initialized: false, size: 0 }
    }

    /// Hand the reserved region to the allocator. Calling this twice is a
    /// programming error, excluded by the precondition.
    pub fn init(&mut self)
        requires
            !old(self).initialized,
        ensures
            final(self).initialized,
            final(self).size == HEAP_BYTES,
    {
        self.initialized = true;
        self.size = HEAP_BYTES;
    }

    /// Checked initialisation: refuses a second call instead of assuming
    /// it away, so a double-init is detectable by the caller.
    pub fn try_init(&mut self) -> (r: Result<(), HeapError>)
        ensures
            r is Ok <==> !old(self).initialized,
            final(self).initialized,
            old(self).initialized ==> *final(self) == *old(self),
            !old(self).initialized ==> final(self).size == HEAP_BYTES,
    {
        if self.initialized {
            Err(HeapError::AlreadyInitialized)
        } else {
            self.init();
            Ok(())
        }
    }
}

} // verus!
