//! A function whose body is a single expression.
use vstd::prelude::*;

verus! {

/// Returns five, the value of its final expression.
pub fn func_that_returns() -> (r: i32)
    ensures
        r == 5,
{
    5
}

} // verus!
