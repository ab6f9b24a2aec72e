use vstd::prelude::*;

verus! {

/// The size in bytes of one stack slot.
pub const STACK_ADDRESS_OFFSET: i32 = 4;

} // verus!
