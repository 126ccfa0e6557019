//! A small worked example of returning a tuple of values.

use vstd::prelude::*;

verus! {

use vstd::string::StringExecFns;

/// The fixed greeting parts and age, as a tuple.
pub fn get_values() -> (r: (String, String, i32))
    ensures
        r.0@ == "Hello"@,
        r.1@ == "World"@,
        r.2 == 30,
{
    (String::from_str("Hello"), String::from_str("World"), 30)
}

} // verus!
