use vstd::prelude::*;

verus! {

/// The memoised value derived from a counter: twice the counter.
pub fn doubled(x: i32) -> (r: i32)
    requires
        i32::MIN <= 2 * x <= i32::MAX,
    ensures
        r == 2 * x,
{
    x * 2
}

} // verus!
