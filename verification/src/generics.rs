//! Generic data types: a point over any coordinate type, and a first peek at
//! a slice of any element type.

use vstd::prelude::*;

verus! {

/// The first element of a non-empty slice. (The search for an actually
/// largest element needs an order on the elements; see the trait examples.)
pub fn largest<T>(list: &[T]) -> (r: &T)
    requires
        list@.len() > 0,
    ensures
        *r == list@[0],
{
    &list[0]
}

/// A point whose two coordinates share one type.
#[derive(Debug)]
pub struct Point<T> {
    pub x: T,
    pub y: T,
}

impl<T> Point<T> {
    /// A borrow of the first coordinate.
    pub fn x(&self) -> (r: &T)
        ensures
            *r == self.x,
    {
        &self.x
    }
}

/// A point whose two coordinates may differ in type.
#[derive(Debug)]
pub struct Point2<T, U> {
    pub x: T,
    pub y: U,
}

} // verus!
