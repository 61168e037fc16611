//! A short tour of basic mechanics beside the reader: a checked sum, and a
//! walk through mutable bindings, associated functions and string appending.

use vstd::prelude::*;
use vstd::string::StringExecFns;

verus! {

/// The sum of two numbers; the caller owes that it fits in a machine word.
pub fn add(left: u64, right: u64) -> (sum: u64)
    requires
        left + right <= u64::MAX,
    ensures
        sum == left + right,
{
    left + right
}

/// Walks through basic mechanics — a mutable binding, an associated
/// function, string appending — with each step checked as it happens.
pub fn tour_rust_fn() {
    let mut counter: u64 = 0;
    counter = counter + 1;
    assert(counter == 1);
    let mut text = String::from_str("tour of ");
    text.append("rust");
    assert(text@ == "tour of "@ + "rust"@);
}

} // verus!
