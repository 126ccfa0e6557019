//! A small worked example of constructing a struct.

use vstd::prelude::*;

verus! {

/// A person with a name and an age.
pub struct Person {
    pub name: String,
    pub age: u8,
}

/// Builds a person from the two fields.
pub fn create_person(name: String, age: u8) -> (r: Person)
    ensures
        r.name == name,
        r.age == age,
{
    Person { name, age }
}

} // verus!
