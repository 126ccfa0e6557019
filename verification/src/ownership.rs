//! Small worked examples of owned and borrowed strings, with the effect on
//! the borrowed value stated exactly.

use vstd::prelude::*;

verus! {

use vstd::string::StringExecFns;

/// Empties the string behind the mutable borrow.
pub fn empty_string(value: &mut String)
    ensures
        final(value)@ == Seq::<char>::empty(),
{
    *value = String::new();
}

/// The fixed name, as an owned string.
pub fn get_name() -> (r: String)
    ensures
        r@ == "John"@,
{
    String::from_str("John")
}

} // verus!
