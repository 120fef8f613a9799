//! The rule of the system allocator.

use vstd::prelude::*;

verus! {

/// The strictest alignment that the system allocator guarantees.
pub const MAX_ALIGN: usize = 8;

/// Tells whether the system allocator can serve a request with alignment
/// `align`.
pub fn supports(align: usize) -> (supported: bool)
    ensures
        supported == (align <= MAX_ALIGN),
{
    !(align > MAX_ALIGN)
}

} // verus!
