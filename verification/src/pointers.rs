//! Small worked examples of wrapper types and in-place mutation.

use vstd::prelude::*;

verus! {

/// A box-like wrapper holding one value.
pub struct BoxedValue<T> {
    pub value: T,
}

impl<T> BoxedValue<T> {
    /// Wraps the value.
    pub fn new(value: T) -> (r: Self)
        ensures
            r.value == value,
    {
        BoxedValue { value }
    }
}

/// A person whose age can be advanced in place.
pub struct Person {
    pub name: String,
    pub age: u8,
}

impl Person {
    /// Advances the age by one year and yields the new age; the age must not
    /// be at its maximum.
    pub fn increment_age(&mut self) -> (r: u8)
        requires
            old(self).age < 255,
        ensures
            final(self).age == old(self).age + 1,
            final(self).name == old(self).name,
            r == final(self).age,
    {
        self.age = self.age + 1;
        self.age
    }
}

} // verus!
