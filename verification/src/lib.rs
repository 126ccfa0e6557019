//! Manufacturer search: a small verified pipeline that extracts manufacturer
//! records from a JSON document, filters them by a keyword, and renders a
//! report, together with a collection of small verified worked examples.

pub mod collections;
pub mod error_handling;
pub mod functions;
pub mod generics;
pub mod json;
pub mod lifetime;
pub mod notes;
pub mod ownership;
pub mod pointers;
pub mod search;
pub mod structures;
pub mod strutil;
pub mod traits;

use vstd::prelude::*;

verus! {

} // verus!
