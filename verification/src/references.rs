//! Borrowing: reading a string through a shared reference and growing one
//! through a mutable reference.

use vstd::prelude::*;
use vstd::string::StringExecFns;
use crate::text::byte_len;

verus! {

/// The length of `s` in bytes; the string itself is only borrowed.
pub fn calculate_length(s: &String) -> (r: usize)
    ensures
        r == byte_len(s@) as usize,
{
    s.as_str().len()
}

/// Appends `, world` to the borrowed string.
pub fn change(some_string: &mut String)
    ensures
        final(some_string)@ == old(some_string)@ + ", world"@,
{
    some_string.append(", world");
}

} // verus!
