//! The pool-backed allocator the application installs; allocation itself
//! is a firmware service.

use vstd::prelude::*;

verus! {

/// The global allocator type: allocations are served from the firmware's
/// pool.
#[derive(Debug, Copy, Clone)]
pub struct UefiAllocator;

} // verus!
