//! Small worked examples of `Result`-returning functions with exact
//! contracts: which variant comes back, and with which text.

use vstd::prelude::*;

verus! {

use vstd::string::StringExecFns;

/// Always yields the fixed user name.
pub fn gets_user_name() -> (r: Result<String, ()>)
    ensures
        r matches Ok(name) && name@ == "Buckminster"@,
{
    Ok(String::from_str("Buckminster"))
}

/// Always fails, with the unit error.
pub fn gets_user_name_with_err() -> (r: Result<String, ()>)
    ensures
        r is Err,
{
    Err(())
}

/// Always yields the fixed first name.
pub fn get_first_name() -> (r: Result<String, ()>)
    ensures
        r matches Ok(name) && name@ == "Mileva"@,
{
    Ok(String::from_str("Mileva"))
}

/// Always yields the fixed last name.
pub fn get_last_name() -> (r: Result<String, ()>)
    ensures
        r matches Ok(name) && name@ == "Maric"@,
{
    Ok(String::from_str("Maric"))
}

/// Joins the first and last name; both parts succeed, so the whole does.
pub fn get_full_name() -> (r: Result<String, ()>)
    ensures
        r matches Ok(name) && name@ == "Mileva Maric"@,
{
    let first = get_first_name()?;
    let last = get_last_name()?;
    let mut full = first;
    full.append(" ");
    full.append(last.as_str());
    proof {
        reveal_strlit("Mileva");
        reveal_strlit(" ");
        reveal_strlit("Maric");
        reveal_strlit("Mileva Maric");
        assert(full@ =~= "Mileva Maric"@);
    }
    Ok(full)
}

/// Always yields the fixed first name, with a textual error type.
pub fn get_first_name_err() -> (r: Result<String, String>)
    ensures
        r matches Ok(name) && name@ == "Mileva"@,
{
    Ok(String::from_str("Mileva"))
}

/// Always fails, and says so in text.
pub fn get_last_name_err() -> (r: Result<String, String>)
    ensures
        r matches Err(error) && error@ == "I don't know your last name"@,
{
    Err(String::from_str("I don't know your last name"))
}

/// Joins the two names, but the last name lookup fails, so the whole fails
/// with its error.
pub fn get_full_name_err() -> (r: Result<String, String>)
    ensures
        r matches Err(error) && error@ == "I don't know your last name"@,
{
    let first = get_first_name_err()?;
    let last = get_last_name_err()?;
    let mut full = first;
    full.append(" ");
    full.append(last.as_str());
    Ok(full)
}

} // verus!
