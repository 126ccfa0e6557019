//! Timestamped note entries: the exact text appended to the notes file for a
//! given note, with the wall-clock reading behind a trusted wrapper.

use vstd::prelude::*;

verus! {

use vstd::string::StringExecFns;

/// The entry appended for one note: the timestamp in a comment marker, the
/// note, and a blank separator line.
pub open spec fn entry_model(timestamp: Seq<char>, note: Seq<char>) -> Seq<char> {
    "<!-- "@ + timestamp + " -->\n"@ + note + "\n\n"@
}

/// Renders the entry for a note taken at the given timestamp.
pub fn note_entry(timestamp: &str, note: &str) -> (r: String)
    ensures
        r@ == entry_model(timestamp@, note@),
{
    let mut text = String::from_str("<!-- ");
    text.append(timestamp);
    text.append(" -->\n");
    text.append(note);
    text.append("\n\n");
    proof {
        assert(text@ =~= entry_model(timestamp@, note@));
    }
    text
}

/// Relies on `chrono::Local::now` and `chrono::DateTime::format`: the wall
/// clock rendered as date and time. The result depends on the clock and the
/// local time zone, so nothing further is assumed of it.
#[verifier::external_body]
fn local_timestamp() -> String {
    chrono::Local::now().format("%Y-%m-%d %H:%M:%S").to_string()
}

/// Renders the entry for a note taken now: whatever the clock read, the
/// result is the entry for that reading.
pub fn timestamped_entry(note: &str) -> (r: String)
    ensures
        exists|timestamp: Seq<char>| r@ == entry_model(timestamp, note@),
{
    let stamp = local_timestamp();
    let entry = note_entry(stamp.as_str(), note);
    proof {
        assert(entry@ == entry_model(stamp@, note@));
    }
    entry
}

/// The note is the only argument after the program name; any other shape of
/// the argument list is rejected.
pub fn note_of_args(args: &Vec<String>) -> (r: Option<String>)
    ensures
        args@.len() == 2 ==> (r matches Some(note) && note@ == args@[1]@),
        args@.len() != 2 ==> r is None,
{
    if args.len() == 2 {
        Some(args[1].clone())
    } else {
        None
    }
}

/// The usage line printed when the argument list has the wrong shape.
pub fn notes_usage() -> (r: &'static str)
    ensures
        r@ == "Usage: notes your_note_goes_here"@,
{
    "Usage: notes your_note_goes_here"
}

} // verus!
