//! A person type with a trait for its full name, a constructor that splits a
//! full name at spaces, and an exact textual description.

use vstd::prelude::*;

verus! {

use vstd::string::StrSliceExecFns;
use vstd::string::StringExecFns;
use crate::strutil::{dec_str, find_char_from, find_idx, lemma_find_idx, u64_to_string};

/// A person with a first name, a last name and an age.
#[derive(Debug)]
pub struct Person {
    pub first_name: String,
    pub last_name: String,
    pub age: u8,
}

/// Things that have a full name.
pub trait HasFullName {
    /// What the full name reads.
    spec fn full_name_model(&self) -> Seq<char>;

    /// Renders the full name, matching `full_name_model`.
    fn full_name(&self) -> (r: String)
        ensures
            r@ == self.full_name_model(),
    ;
}

impl HasFullName for Person {
    open spec fn full_name_model(&self) -> Seq<char> {
        self.first_name@ + " "@ + self.last_name@
    }

    fn full_name(&self) -> (r: String) {
        let mut text = self.first_name.clone();
        text.append(" ");
        text.append(self.last_name.as_str());
        proof {
            assert(text@ =~= self.full_name_model());
        }
        text
    }
}

impl Person {
    /// Builds a person from a full name holding at least one space: the first
    /// name is everything before the first space, the last name everything
    /// between the first space and the next one, or the end.
    pub fn new(full_name: &str, age: u8) -> (r: Person)
        requires
            find_idx(full_name@, ' ', 0) < full_name@.len(),
        ensures
            ({
                let sp = find_idx(full_name@, ' ', 0);
                let sp2 = find_idx(full_name@, ' ', sp + 1);
                r.first_name@ == full_name@.subrange(0, sp) && r.last_name@
                    == full_name@.subrange(sp + 1, sp2) && r.age == age
            }),
    {
        proof {
            lemma_find_idx(full_name@, ' ', 0);
        }
        let n = full_name.unicode_len();
        let sp = find_char_from(full_name, ' ', 0);
        proof {
            lemma_find_idx(full_name@, ' ', sp + 1);
        }
        let sp2 = find_char_from(full_name, ' ', sp + 1);
        Person {
            first_name: String::from_str(full_name.substring_char(0, sp)),
            last_name: String::from_str(full_name.substring_char(sp + 1, sp2)),
            age,
        }
    }

    /// Renders the person as "first last is age years old".
    pub fn describe(&self) -> (r: String)
        ensures
            r@ == self.first_name@ + " "@ + self.last_name@ + " is "@ + dec_str(self.age as nat)
                + " years old"@,
    {
        let mut text = self.first_name.clone();
        text.append(" ");
        text.append(self.last_name.as_str());
        text.append(" is ");
        let age_text = u64_to_string(self.age as u64);
        text.append(age_text.as_str());
        text.append(" years old");
        proof {
            assert(text@ =~= self.first_name@ + " "@ + self.last_name@ + " is "@ + dec_str(
                self.age as nat,
            ) + " years old"@);
        }
        text
    }
}

} // verus!
