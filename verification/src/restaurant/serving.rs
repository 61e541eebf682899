//! The servers' work: taking orders, bringing food, and settling the bill.

use vstd::prelude::*;

verus! {

/// Writes a guest's order down.
pub fn take_order() {
}

/// Brings a finished order to the table.
pub fn serve_order() {
}

/// Settles the bill.
pub fn take_payment() {
}

} // verus!
