use vstd::prelude::*;

verus! {

/// Put a party on the wait list. The list is kept off the books, so
/// nothing observable happens yet.
pub fn add_to_wait_list() {
}

/// Walk a waiting party to a table.
#[allow(dead_code)]
fn seat_at_table() {
}

} // verus!
