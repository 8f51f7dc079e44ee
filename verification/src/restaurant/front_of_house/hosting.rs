use vstd::prelude::*;

verus! {

/// Puts a party on the waiting list.
pub fn add_to_waiting_list() {
}

/// Seats the next party.
pub fn seat_at_table() {
}

} // verus!
