//! Serving seated guests.
use vstd::prelude::*;

verus! {

/// Takes a table's order.
#[allow(dead_code)]
fn take_order() {
}

/// Brings a table its order.
#[allow(dead_code)]
fn serve_order() {
}

/// Settles a table's bill.
#[allow(dead_code)]
fn take_payment() {
}

} // verus!
