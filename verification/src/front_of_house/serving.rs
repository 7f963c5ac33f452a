use vstd::prelude::*;

verus! {

/// Write down what a seated party wants.
#[allow(dead_code)]
fn take_order() {
}

/// Carry a finished order out of the kitchen.
pub fn serve_order() {
}

/// Settle the bill.
#[allow(dead_code)]
fn take_payment() {
}

} // verus!
