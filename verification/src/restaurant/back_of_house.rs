//! The kitchen: cooking, fixing mistakes, and composing the dishes.

use vstd::prelude::*;
use vstd::string::StringExecFns;

verus! {

/// Fixing an incorrect order means cooking it again and serving it anew.
pub fn fix_incorrect_order() {
    cook_order();
    super::serve_order();
}

/// Prepares an order.
pub fn cook_order() {
}

/// A breakfast: the guest picks the toast, the kitchen picks the fruit.
pub struct Breakfast {
    pub toast: String,
    seasonal_fruit: String,
}

impl Breakfast {
    /// The toast on the plate.
    pub closed spec fn spec_toast(&self) -> Seq<char> {
        self.toast@
    }

    /// The fruit that comes with the meal; the guest cannot choose it.
    pub closed spec fn spec_seasonal_fruit(&self) -> Seq<char> {
        self.seasonal_fruit@
    }

    /// A summer breakfast: the chosen toast, served with peaches.
    pub fn summer(toast: &str) -> (r: Breakfast)
        ensures
            r.spec_toast() == toast@,
            r.spec_seasonal_fruit() == "peaches"@,
    {
        Breakfast {
            toast: String::from_str(toast),
            seasonal_fruit: String::from_str("peaches"),
        }
    }
}

/// The appetizers on the menu.
pub enum Appetizer {
    Soup,
    Salad,
}

} // verus!
