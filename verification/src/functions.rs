//! Small worked examples of plain functions and of passing a function as an
//! argument.

use vstd::prelude::*;

verus! {

use vstd::string::StringExecFns;

/// The fixed greeting.
pub fn say_hello_world() -> (r: String)
    ensures
        r@ == "Hello World!"@,
{
    String::from_str("Hello World!")
}

/// Greets the given person by name.
pub fn say_hello_to_person(to_person: String) -> (r: String)
    ensures
        r@ == "Hello "@ + to_person@ + " !"@,
{
    let mut text = String::from_str("Hello ");
    text.append(to_person.as_str());
    text.append(" !");
    proof {
        assert(text@ =~= "Hello "@ + to_person@ + " !"@);
    }
    text
}

/// Hands the name to the callback; the caller warrants that the callback
/// accepts it.
pub fn process_name<F: Fn(&str)>(name: &str, callback: F)
    requires
        call_requires(callback, (name,)),
{
    callback(name);
}

} // verus!
