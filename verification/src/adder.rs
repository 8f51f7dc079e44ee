use vstd::prelude::*;
use vstd::string::StringExecFns;

verus! {

/// Adds two numbers.
pub fn internal_adder(a: i32, b: i32) -> (r: i32)
    requires
        i32::MIN <= a + b <= i32::MAX,
    ensures
        r == a + b,
{
    a + b
}

/// Adds two to the number given.
pub fn add_two(a: i32) -> (r: i32)
    requires
        a + 2 <= i32::MAX,
    ensures
        r == a + 2,
{
    internal_adder(a, 2)
}

/// Builds the greeting addressed to `name`.
pub fn greeting(name: &str) -> (r: String)
    ensures
        r@ == "Hello "@ + name@ + "!"@,
{
    let mut result = String::new();
    result.append("Hello ");
    result.append(name);
    result.append("!");
    result
}

} // verus!
