//! Reading single bits of a byte, shared by the report specifications.

use vstd::prelude::*;

verus! {

/// Bit `i` of `b`, counting from the least significant bit.
pub open spec fn get_bit(b: u8, i: u8) -> bool {
    (b >> i) & 1 == 1
}

} // verus!
