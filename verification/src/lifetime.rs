//! Small worked examples of returning borrowed and owned text, with the
//! relation between input and output stated exactly.

use vstd::prelude::*;

verus! {

use vstd::string::StrSliceExecFns;
use vstd::string::StringExecFns;

/// The fixed full name, as an owned string.
pub fn _get_full_name_string() -> (r: String)
    ensures
        r@ == "John Doe"@,
{
    String::from_str("John Doe")
}

/// The fixed full name, as a borrowed slice that lives as long as the
/// program.
pub fn get_full_name() -> (r: &'static str)
    ensures
        r@ == "John Doe"@,
{
    "John Doe"
}

/// Yields the first of the two names.
pub fn get_random_name<'ls_a, 'ls_b>(a: &'ls_a str, _b: &'ls_b str) -> (r: &'ls_a str)
    ensures
        r@ == a@,
{
    a
}

/// Yields the second of the two names.
pub fn get_random_name_2<'ls>(_a: &'ls str, b: &'ls str) -> (r: &'ls str)
    ensures
        r@ == b@,
{
    b
}

/// Hands the borrowed name straight back.
pub fn _get_full_name_elision(full_name: &str) -> (r: &str)
    ensures
        r@ == full_name@,
{
    full_name
}

/// A person's name in two parts.
pub struct PersonName {
    pub first_name: String,
    pub last_name: String,
}

impl PersonName {
    /// The first character of the first name, as a one-character slice; the
    /// first name must not be empty.
    pub fn first_char_or_first_name(&self) -> (r: &str)
        requires
            self.first_name@.len() >= 1,
        ensures
            r@ == self.first_name@.subrange(0, 1),
    {
        self.first_name.as_str().substring_char(0, 1)
    }

    /// The two parts joined with a space.
    pub fn return_full_name(&self) -> (r: String)
        ensures
            r@ == self.first_name@ + " "@ + self.last_name@,
    {
        let mut text = self.first_name.clone();
        text.append(" ");
        text.append(self.last_name.as_str());
        proof {
            assert(text@ =~= self.first_name@ + " "@ + self.last_name@);
        }
        text
    }
}

} // verus!
