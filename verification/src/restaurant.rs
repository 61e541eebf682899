//! A restaurant, split into the areas a guest sees and the kitchen behind
//! them: hosting, serving, and the back of house.

use vstd::prelude::*;

pub mod back_of_house;
pub mod hosting;
pub mod serving;

verus! {

/// Serving an order straight from the counter.
pub fn serve_order() {
}

/// A guest coming in for breakfast joins the waitlist and orders toast.
pub fn eat_at_restaurant2() {
    hosting::add_to_waitlist();
    hosting::add_to_waitlist();
    hosting::add_to_waitlist();
}

} // verus!
