//! Functions whose results borrow from their arguments, and a struct that
//! holds a borrowed excerpt.

use vstd::prelude::*;
use crate::text::byte_len;

verus! {

/// The longer of two strings, measured in bytes; ties go to the second.
pub fn longest<'a>(x: &'a str, y: &'a str) -> (r: &'a str)
    ensures
        byte_len(x@) as usize > byte_len(y@) as usize ==> r@ == x@,
        byte_len(x@) as usize <= byte_len(y@) as usize ==> r@ == y@,
{
    if x.len() > y.len() {
        x
    } else {
        y
    }
}

/// Always the first of its two arguments; only that one shares the result's
/// lifetime.
pub fn longest2<'a>(x: &'a str, y: &str) -> (r: &'a str)
    ensures
        r@ == x@,
{
    x
}

/// An excerpt borrowed from a longer text.
pub struct ImportantExcerpt<'a> {
    pub part: &'a str,
}

impl<'a> ImportantExcerpt<'a> {
    /// The level of every excerpt is three.
    pub fn level(&self) -> (r: i32)
        ensures
            r == 3,
    {
        3
    }
}

} // verus!
