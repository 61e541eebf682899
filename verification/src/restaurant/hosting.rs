//! The host's station: greeting guests and finding them a table.

use vstd::prelude::*;

verus! {

/// Puts a waiting guest on the list.
pub fn add_to_waitlist() {
}

/// Walks a guest to a free table.
pub fn seat_at_table() {
}

} // verus!
