use vstd::prelude::*;

verus! {

/// Always returns five.
pub fn five() -> (r: i32)
    ensures
        r == 5,
{
    5
}

/// Adds one to the number given.
pub fn add_one(x: i32) -> (r: i32)
    requires
        x + 1 <= i32::MAX,
    ensures
        r == x + 1,
{
    x + 1
}

/// Adds one to its argument.
pub fn plus_one(x: i32) -> (r: i32)
    requires
        x + 1 <= i32::MAX,
    ensures
        r == x + 1,
{
    x + 1
}

} // verus!
