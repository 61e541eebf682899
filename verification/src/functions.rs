//! The smallest possible functions: a constant and a successor.

use vstd::prelude::*;

verus! {

/// The number five.
pub fn five() -> (r: i32)
    ensures
        r == 5,
{
    5
}

/// The number after `x`.
pub fn plus_one(x: i32) -> (r: i32)
    requires
        x + 1 <= i32::MAX,
    ensures
        r == x + 1,
{
    x + 1
}

} // verus!
