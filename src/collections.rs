//! Reading a vector with and without a bounds check, and updating it in
//! place.
use vstd::prelude::*;

verus! {

/// The element at `index`, or `None` past the end; never panics.
pub fn get_element(v: &Vec<i32>, index: usize) -> (r: Option<i32>)
    ensures
        index < v@.len() ==> r == Some(v@[index as int]),
        index >= v@.len() ==> r is None,
{
    match v.get(index) {
        Some(x) => Some(*x),
        None => None,
    }
}

/// Adds `delta` to every element.
pub fn add_to_all(v: &mut Vec<i32>, delta: i32)
    requires
        forall|i: int|
            0 <= i < old(v)@.len() ==> i32::MIN <= #[trigger] old(v)@[i] + delta <= i32::MAX,
    ensures
        final(v)@.len() == old(v)@.len(),
        forall|i: int| 0 <= i < old(v)@.len() ==> #[trigger] final(v)@[i] == old(v)@[i] + delta,
{
    let n = v.len();
    let mut i: usize = 0;
    while i < n
        invariant
            n == v@.len() == old(v)@.len(),
            0 <= i <= n,
            forall|j: int|
                0 <= j < n ==> i32::MIN <= #[trigger] old(v)@[j] + delta <= i32::MAX,
            forall|j: int| 0 <= j < i ==> #[trigger] v@[j] == old(v)@[j] + delta,
            forall|j: int| i <= j < n ==> #[trigger] v@[j] == old(v)@[j],
        decreases n - i,
    {
        let x = v[i];
        v.set(i, x + delta);
        i = i + 1;
    }
}

} // verus!
