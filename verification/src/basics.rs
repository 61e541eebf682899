//! Small functions and types exercised heavily by the test suite: simple
//! arithmetic, a greeting string, a rectangle comparison, and a guess value
//! that is only valid between 1 and 100.

use vstd::prelude::*;
use vstd::string::StringExecFns;

verus! {

/// A rectangle measured in whole pixels.
#[derive(Debug)]
pub struct Rectangle {
    pub width: u32,
    pub height: u32,
}

impl Rectangle {
    /// True exactly when `self` is strictly wider and strictly taller than
    /// `other`.
    pub fn can_hold(&self, other: &Rectangle) -> (r: bool)
        ensures
            r == (self.width > other.width && self.height > other.height),
    {
        self.width > other.width && self.height > other.height
    }
}

/// Adds two to its argument.
pub fn add_two(a: i32) -> (r: i32)
    requires
        a + 2 <= i32::MAX,
    ensures
        r == a + 2,
{
    a + 2
}

/// Builds the greeting `Hello <name>!`.
pub fn greeting(name: &str) -> (r: String)
    ensures
        r@ == "Hello "@ + name@ + "!"@,
{
    let mut s = String::from_str("Hello ");
    s.append(name);
    s.append("!");
    s
}

/// A guess in a guessing game; the stored value is always between 1 and 100.
pub struct Guess {
    value: i32,
}

impl Guess {
    /// The number this guess holds.
    pub closed spec fn spec_value(&self) -> i32 {
        self.value
    }

    /// Every guess carries a value between 1 and 100.
    pub open spec fn wf(&self) -> bool {
        1 <= self.spec_value() <= 100
    }

    /// Wraps a value between 1 and 100 as a guess.
    pub fn new(value: i32) -> (r: Guess)
        requires
            1 <= value <= 100,
        ensures
            r.spec_value() == value,
            r.wf(),
    {
        Guess { value }
    }

    /// Wraps a value between 1 and 100 as a guess; same behaviour as `new`,
    /// with the two bounds checked one at a time.
    pub fn new2(value: i32) -> (r: Guess)
        requires
            1 <= value <= 100,
        ensures
            r.spec_value() == value,
            r.wf(),
    {
        Guess { value }
    }
}

} // verus!
